//! Weather stories: the narrative schema, the deterministic synthetic
//! story, provider selection for generated stories, the prompt and
//! request bodies for the generative providers, and the presentation
//! helpers the rendering layer consumes.
//!
//! Confidence values are carried in hundredths: `85` stands for 0.85.

use vstd::prelude::*;

use crate::config::Config;
use crate::fetchers::{
    current_conditions_json, forecast_json, alerts_json, json_of_alerts, json_of_current,
    json_of_forecast, CurrentConditions, FeaturePack, ForecastPayload,
};
use crate::json::{format_hundredths, hundredths_chars, json_string, json_string_of};
use crate::text::{chars_vec, contains_chars, contains_seq, copy_str, lower, string_from_chars, to_lower};

verus! {

/// A complete weather story with narrative sections.
#[derive(Clone, Debug)]
pub struct WeatherStory {
    pub setup: String,
    pub current: String,
    pub evolution: Timeline,
    pub meteorology: String,
    pub decisions: Vec<Decision>,
    pub confidence: ConfidenceNote,
    pub bottom_line: String,
    pub meta: Option<String>,
}

/// The story's ordered phases.
#[derive(Clone, Debug)]
pub struct Timeline {
    pub phases: Vec<TimelinePhase>,
}

/// One phase of the story's evolution.
#[derive(Clone, Debug)]
pub struct TimelinePhase {
    pub start_time: String,
    pub end_time: String,
    pub description: String,
    pub key_changes: Vec<String>,
    pub confidence_e2: u32,
}

/// One activity-specific recommendation.
#[derive(Clone, Debug)]
pub struct Decision {
    pub activity: String,
    pub recommendation: String,
    pub reasoning: String,
    pub timing: Option<String>,
    pub confidence_e2: u32,
}

/// The story's closing confidence assessment.
#[derive(Clone, Debug)]
pub struct ConfidenceNote {
    pub primary_uncertainty: String,
    pub alternative_scenarios: Vec<String>,
    pub confidence_level: ConfidenceLevel,
    pub rationale: String,
}

/// The coarse confidence grade of a story.
#[derive(Clone, Copy, Debug, PartialEq, Eq, Structural)]
pub enum ConfidenceLevel {
    High,
    Medium,
    Low,
}

/// The ten characters of a confidence bar with `f` filled cells.
pub open spec fn bar_chars(f: int) -> Seq<char> {
    Seq::new(10, |i: int| if i < f { '█' } else { '░' })
}

/// Filling the first `f` of ten cells leaves exactly `f` filled
/// characters in the bar.
pub proof fn lemma_bar_fill_count(s: Seq<char>, f: int)
    requires
        0 <= f <= s.len(),
        forall|i: int| 0 <= i < f ==> s[i] == '█',
        forall|i: int| f <= i < s.len() ==> s[i] == '░',
    ensures
        s.filter(|ch: char| ch == '█').len() == f,
    decreases s.len(),
{
    reveal_with_fuel(Seq::<char>::filter, 2);
    let pred = |ch: char| ch == '█';
    if s.len() == 0 {
    } else {
        let rest = s.drop_last();
        if f == s.len() {
            lemma_bar_fill_count(rest, f - 1);
            assert(pred(s.last()));
        } else {
            lemma_bar_fill_count(rest, f);
            assert(!pred(s.last()));
        }
    }
}

/// The visual confidence indicator: a bar of ten cells, the first
/// `confidence/10` filled. The filled count is exactly the confidence
/// scaled to tenths and rounded down.
pub fn confidence_bar(confidence_e2: u32) -> (r: String)
    requires
        confidence_e2 <= 100,
    ensures
        r@.len() == 10,
        r@ == bar_chars(confidence_e2 as int / 10),
        r@.filter(|ch: char| ch == '█').len() == confidence_e2 as int / 10,
{
    let filled = confidence_e2 / 10;
    let mut v: Vec<char> = Vec::new();
    let mut i: usize = 0;
    while i < 10
        invariant
            i <= 10,
            filled == confidence_e2 / 10,
            confidence_e2 <= 100,
            v@.len() == i,
            forall|j: int| 0 <= j < i ==> v@[j] == (if j < filled { '█' } else { '░' }),
        decreases 10 - i,
    {
        if i < filled as usize {
            v.push('█');
        } else {
            v.push('░');
        }
        i = i + 1;
    }
    proof {
        assert(v@ =~= bar_chars(confidence_e2 as int / 10));
        lemma_bar_fill_count(v@, confidence_e2 as int / 10);
    }
    string_from_chars(&v)
}

/// The glyph an activity maps to: the first match in a fixed, ordered
/// list of case-insensitive keywords, or a pin when none matches.
pub open spec fn emoji_for(activity: Seq<char>) -> Seq<char> {
    let a = lower(activity);
    if contains_seq(a, "commute"@) {
        "🚗"@
    } else if contains_seq(a, "bike"@) {
        "🚴"@
    } else if contains_seq(a, "run"@) {
        "🏃"@
    } else if contains_seq(a, "walk"@) {
        "🚶"@
    } else if contains_seq(a, "outdoor"@) {
        "🌳"@
    } else if contains_seq(a, "lunch"@) {
        "☕"@
    } else if contains_seq(a, "dinner"@) {
        "🍽️"@
    } else if contains_seq(a, "aviation"@) {
        "✈️"@
    } else if contains_seq(a, "sailing"@) || contains_seq(a, "marine"@) {
        "⛵"@
    } else if contains_seq(a, "sports"@) {
        "⚽"@
    } else if contains_seq(a, "event"@) {
        "📅"@
    } else if contains_seq(a, "travel"@) {
        "🧳"@
    } else if contains_seq(a, "work"@) {
        "💼"@
    } else if contains_seq(a, "school"@) {
        "🎒"@
    } else {
        "📌"@
    }
}

/// Map an activity to its display glyph.
pub fn activity_emoji(activity: &str) -> (r: &'static str)
    ensures
        r@ == emoji_for(activity@),
{
    let cs = chars_vec(activity);
    let a = to_lower(&cs);
    if contains_chars(&a, &chars_vec("commute")) {
        "🚗"
    } else if contains_chars(&a, &chars_vec("bike")) {
        "🚴"
    } else if contains_chars(&a, &chars_vec("run")) {
        "🏃"
    } else if contains_chars(&a, &chars_vec("walk")) {
        "🚶"
    } else if contains_chars(&a, &chars_vec("outdoor")) {
        "🌳"
    } else if contains_chars(&a, &chars_vec("lunch")) {
        "☕"
    } else if contains_chars(&a, &chars_vec("dinner")) {
        "🍽️"
    } else if contains_chars(&a, &chars_vec("aviation")) {
        "✈️"
    } else if contains_chars(&a, &chars_vec("sailing")) || contains_chars(
        &a,
        &chars_vec("marine"),
    ) {
        "⛵"
    } else if contains_chars(&a, &chars_vec("sports")) {
        "⚽"
    } else if contains_chars(&a, &chars_vec("event")) {
        "📅"
    } else if contains_chars(&a, &chars_vec("travel")) {
        "🧳"
    } else if contains_chars(&a, &chars_vec("work")) {
        "💼"
    } else if contains_chars(&a, &chars_vec("school")) {
        "🎒"
    } else {
        "📌"
    }
}

/// Which generation strategy the configuration selects.
#[derive(Clone, Copy, Debug, PartialEq, Eq, Structural)]
pub enum ProviderChoice {
    /// The primary provider: a key for it is configured.
    Gemini,
    /// The secondary provider: only its key is configured.
    OpenRouter,
    /// No provider key at all: the deterministic synthetic story.
    Synthetic,
}

/// The strategy order is fixed: primary first, then secondary, then the
/// synthetic fallback, which is always available.
pub open spec fn provider_of(c: Config) -> ProviderChoice {
    if c.gemini_api_key is Some {
        ProviderChoice::Gemini
    } else if c.openrouter_api_key is Some {
        ProviderChoice::OpenRouter
    } else {
        ProviderChoice::Synthetic
    }
}

/// Pick the generation strategy for a configuration.
pub fn choose_provider(config: &Config) -> (p: ProviderChoice)
    ensures
        p == provider_of(*config),
{
    if config.gemini_api_key.is_some() {
        ProviderChoice::Gemini
    } else if config.openrouter_api_key.is_some() {
        ProviderChoice::OpenRouter
    } else {
        ProviderChoice::Synthetic
    }
}

/// The display name a snapshot carries, or the placeholder.
pub open spec fn location_name_of(p: FeaturePack) -> Seq<char> {
    match p.location {
        Some(l) => l.name@,
        None => "Unknown"@,
    }
}

/// The display name of a snapshot's location.
pub fn location_name(pack: &FeaturePack) -> (r: String)
    ensures
        r@ == location_name_of(*pack),
{
    match &pack.location {
        Some(l) => l.name.clone(),
        None => copy_str("Unknown"),
    }
}

/// What the deterministic synthetic story for a location says, field for
/// field. The story depends on nothing but the location name.
pub open spec fn synthetic_shape(s: WeatherStory, loc: Seq<char>) -> bool {
    &&& s.setup@ == "High pressure dominates over "@ + loc
        + ", creating stable atmospheric conditions."@
    &&& s.current@ == "Clear skies with light winds. Temperature comfortable for the season."@
    &&& s.evolution.phases@.len() == 2
    &&& s.evolution.phases@[0].start_time@ == "Now"@
    &&& s.evolution.phases@[0].end_time@ == "6 hours"@
    &&& s.evolution.phases@[0].description@
        == "Conditions remain stable with gradual temperature change"@
    &&& s.evolution.phases@[0].key_changes@.len() == 1
    &&& s.evolution.phases@[0].key_changes@[0]@ == "Slow temperature transition"@
    &&& s.evolution.phases@[0].confidence_e2 == 80
    &&& s.evolution.phases@[1].start_time@ == "6 hours"@
    &&& s.evolution.phases@[1].end_time@ == "12 hours"@
    &&& s.evolution.phases@[1].description@ == "Continuing stable pattern"@
    &&& s.evolution.phases@[1].key_changes@.len() == 0
    &&& s.evolution.phases@[1].confidence_e2 == 70
    &&& s.meteorology@
        == "High pressure ridge maintains control, suppressing cloud development and precipitation. Classic fair weather pattern."@
    &&& s.decisions@.len() == 1
    &&& s.decisions@[0].activity@ == "Outdoor activities"@
    &&& s.decisions@[0].recommendation@ == "Excellent conditions for any outdoor plans"@
    &&& s.decisions@[0].reasoning@ == "Stable weather with no precipitation expected"@
    &&& s.decisions@[0].timing matches Some(t) && t@ == "Any time today"@
    &&& s.decisions@[0].confidence_e2 == 85
    &&& s.confidence.primary_uncertainty@ == "Timing of next weather system"@
    &&& s.confidence.alternative_scenarios@.len() == 1
    &&& s.confidence.alternative_scenarios@[0]@ == "Pattern holds longer than expected"@
    &&& s.confidence.confidence_level == ConfidenceLevel::Medium
    &&& s.confidence.rationale@ == "Synthetic data - offline mode"@
    &&& s.bottom_line@ == "Stable, fair weather continues over "@ + loc
        + " with no significant changes expected."@
    &&& s.meta is None
}

impl WeatherStory {
    /// The deterministic synthetic story: fixed fair-weather text
    /// templated with the location name, two fixed phases, one fixed
    /// decision, and a fixed medium-confidence note. Offline mode and
    /// every generation failure land here, so the fallback is
    /// reproducible without any network.
    pub fn synthetic(location: &str) -> (s: WeatherStory)
        ensures
            synthetic_shape(s, location@),
    {
        let mut setup = String::new();
        setup.append("High pressure dominates over ");
        setup.append(location);
        setup.append(", creating stable atmospheric conditions.");
        let mut bottom_line = String::new();
        bottom_line.append("Stable, fair weather continues over ");
        bottom_line.append(location);
        bottom_line.append(" with no significant changes expected.");
        let mut changes0: Vec<String> = Vec::new();
        changes0.push(copy_str("Slow temperature transition"));
        let mut phases: Vec<TimelinePhase> = Vec::new();
        phases.push(
            TimelinePhase {
                start_time: copy_str("Now"),
                end_time: copy_str("6 hours"),
                description: copy_str("Conditions remain stable with gradual temperature change"),
                key_changes: changes0,
                confidence_e2: 80,
            },
        );
        phases.push(
            TimelinePhase {
                start_time: copy_str("6 hours"),
                end_time: copy_str("12 hours"),
                description: copy_str("Continuing stable pattern"),
                key_changes: Vec::new(),
                confidence_e2: 70,
            },
        );
        let mut decisions: Vec<Decision> = Vec::new();
        decisions.push(
            Decision {
                activity: copy_str("Outdoor activities"),
                recommendation: copy_str("Excellent conditions for any outdoor plans"),
                reasoning: copy_str("Stable weather with no precipitation expected"),
                timing: Some(copy_str("Any time today")),
                confidence_e2: 85,
            },
        );
        let mut scenarios: Vec<String> = Vec::new();
        scenarios.push(copy_str("Pattern holds longer than expected"));
        WeatherStory {
            setup,
            current: copy_str(
                "Clear skies with light winds. Temperature comfortable for the season.",
            ),
            evolution: Timeline { phases },
            meteorology: copy_str(
                "High pressure ridge maintains control, suppressing cloud development and precipitation. Classic fair weather pattern.",
            ),
            decisions,
            confidence: ConfidenceNote {
                primary_uncertainty: copy_str("Timing of next weather system"),
                alternative_scenarios: scenarios,
                confidence_level: ConfidenceLevel::Medium,
                rationale: copy_str("Synthetic data - offline mode"),
            },
            bottom_line,
            meta: None,
        }
    }

    /// Settle a generation round: a story the chosen provider produced is
    /// handed through unchanged, and anything less — no provider, a
    /// transport failure, an unreadable reply — falls back to the
    /// synthetic story for the pack's location. The fallback never
    /// fails, so neither does this step: generation never raises to its
    /// caller.
    pub fn generate(
        feature_pack: &FeaturePack,
        config: &Config,
        provider_story: Option<WeatherStory>,
    ) -> (s: WeatherStory)
        requires
            provider_of(*config) is Synthetic ==> provider_story is None,
        ensures
            provider_story matches Some(st) ==> s == st,
            provider_story is None ==> synthetic_shape(s, location_name_of(*feature_pack)),
            provider_of(*config) is Synthetic ==> synthetic_shape(
                s,
                location_name_of(*feature_pack),
            ),
    {
        let _ = config;
        match provider_story {
            Some(st) => st,
            None => {
                let name = location_name(feature_pack);
                WeatherStory::synthetic(name.as_str())
            },
        }
    }
}

/// With neither provider key configured, the synthetic strategy is
/// chosen, and generation yields exactly the synthetic story for the
/// pack's location.
pub proof fn lemma_generate_without_keys(config: Config)
    requires
        config.gemini_api_key is None,
        config.openrouter_api_key is None,
    ensures
        provider_of(config) == ProviderChoice::Synthetic,
{
}


impl Timeline {
    /// Every confidence is at most one, in hundredths.
    pub open spec fn wf(&self) -> bool {
        forall|i: int|
            0 <= i < self.phases@.len() ==> #[trigger] self.phases@[i].confidence_e2 <= 100
    }
}

/// The change lines of one phase: each key change on a line of its own,
/// under the phase's continuation column.
pub open spec fn change_lines(cs: Seq<String>, cont: Seq<char>) -> Seq<char>
    decreases cs.len(),
{
    if cs.len() == 0 {
        Seq::<char>::empty()
    } else {
        change_lines(cs.drop_last(), cont) + "\n"@ + cont + "  \u{2022} "@ + cs.last()@
    }
}

/// The text block of one phase: its headline with the tree prefix, its
/// change lines, its confidence bar, and a bare rail line between
/// phases.
pub open spec fn phase_block(p: TimelinePhase, last: bool) -> Seq<char> {
    phase_head(p, last) + change_lines(p.key_changes@, cont_of(last)) + "\n"@ + cont_of(last)
        + "Confidence: "@ + bar_chars(p.confidence_e2 as int / 10) + (if last {
        Seq::<char>::empty()
    } else {
        "\n\u{2502}"@
    })
}

/// The continuation column under a phase: a rail while more phases
/// follow, blank under the final one.
pub open spec fn cont_of(last: bool) -> Seq<char> {
    if last {
        "   "@
    } else {
        "\u{2502}  "@
    }
}

/// The headline of one phase.
pub open spec fn phase_head(p: TimelinePhase, last: bool) -> Seq<char> {
    (if last {
        "\u{2514}\u{2500}"@
    } else {
        "\u{251c}\u{2500}"@
    }) + " "@ + p.start_time@ + " \u{2013} "@ + p.end_time@ + ": "@ + p.description@
}

/// The blocks of every phase before the final one, joined by newlines.
pub open spec fn head_blocks(ps: Seq<TimelinePhase>) -> Seq<char>
    decreases ps.len(),
{
    if ps.len() == 0 {
        Seq::<char>::empty()
    } else if ps.len() == 1 {
        phase_block(ps[0], false)
    } else {
        head_blocks(ps.drop_last()) + "\n"@ + phase_block(ps.last(), false)
    }
}

/// The whole timeline text: every phase's block, joined by newlines,
/// the final one closing the tree.
pub open spec fn vis_text(ps: Seq<TimelinePhase>) -> Seq<char> {
    if ps.len() == 0 {
        Seq::<char>::empty()
    } else if ps.len() == 1 {
        phase_block(ps[0], true)
    } else {
        head_blocks(ps.drop_last()) + "\n"@ + phase_block(ps.last(), true)
    }
}

/// Write one phase as its text block.
fn phase_block_text(p: &TimelinePhase, last: bool) -> (r: String)
    requires
        p.confidence_e2 <= 100,
    ensures
        r@ == phase_block(*p, last),
{
    let cont: &str = if last {
        "   "
    } else {
        "\u{2502}  "
    };
    let mut s = String::new();
    if last {
        s.append("\u{2514}\u{2500}");
    } else {
        s.append("\u{251c}\u{2500}");
    }
    s.append(" ");
    s.append(p.start_time.as_str());
    s.append(" \u{2013} ");
    s.append(p.end_time.as_str());
    s.append(": ");
    s.append(p.description.as_str());
    proof {
        assert(s@ =~= phase_head(*p, last));
        assert(cont@ == cont_of(last));
    }
    let m = p.key_changes.len();
    let mut j: usize = 0;
    while j < m
        invariant
            m == p.key_changes@.len(),
            j <= m,
            cont@ == cont_of(last),
            s@ == phase_head(*p, last) + change_lines(
                p.key_changes@.subrange(0, j as int),
                cont_of(last),
            ),
        decreases m - j,
    {
        proof {
            let cur = p.key_changes@.subrange(0, j as int + 1);
            assert(cur.drop_last() =~= p.key_changes@.subrange(0, j as int));
            assert(cur.last() == p.key_changes@[j as int]);
        }
        s.append("\n");
        s.append(cont);
        s.append("  \u{2022} ");
        s.append(p.key_changes[j].as_str());
        proof {
            assert(s@ =~= phase_head(*p, last) + change_lines(
                p.key_changes@.subrange(0, j as int + 1),
                cont_of(last),
            ));
        }
        j = j + 1;
    }
    s.append("\n");
    s.append(cont);
    s.append("Confidence: ");
    s.append(confidence_bar(p.confidence_e2).as_str());
    if !last {
        s.append("\n\u{2502}");
    }
    proof {
        assert(p.key_changes@.subrange(0, m as int) =~= p.key_changes@);
        assert(s@ =~= phase_block(*p, last));
    }
    s
}

impl Timeline {
    /// The timeline drawn as a text tree: one block per phase in order,
    /// change bullets and a confidence bar under each, a rail between
    /// phases.
    pub fn to_visualization(&self) -> (r: String)
        requires
            self.wf(),
        ensures
            r@ == vis_text(self.phases@),
    {
        let n = self.phases.len();
        let mut s = String::new();
        if n == 0 {
            return s;
        }
        let mut i: usize = 0;
        while i < n - 1
            invariant
                self.wf(),
                n == self.phases@.len(),
                n >= 1,
                i <= n - 1,
                i == 0 ==> s@ == Seq::<char>::empty(),
                i > 0 ==> s@ == head_blocks(self.phases@.subrange(0, i as int)),
            decreases n - i,
        {
            proof {
                let cur = self.phases@.subrange(0, i as int + 1);
                assert(cur.drop_last() =~= self.phases@.subrange(0, i as int));
                assert(cur.last() == self.phases@[i as int]);
            }
            if i > 0 {
                s.append("\n");
            }
            s.append(phase_block_text(&self.phases[i], false).as_str());
            proof {
                assert(s@ =~= head_blocks(self.phases@.subrange(0, i as int + 1)));
            }
            i = i + 1;
        }
        if n >= 2 {
            s.append("\n");
        }
        s.append(phase_block_text(&self.phases[n - 1], true).as_str());
        proof {
            if n >= 2 {
                assert(self.phases@.subrange(0, n - 1) =~= self.phases@.drop_last());
                assert(self.phases@[n - 1] == self.phases@.last());
                assert(s@ =~= vis_text(self.phases@));
            } else {
                assert(self.phases@[0] == self.phases@.last());
                assert(s@ =~= vis_text(self.phases@));
            }
        }
        s
    }
}

/// The current-conditions text the prompt embeds.
pub open spec fn current_summary_of(p: FeaturePack) -> Seq<char> {
    match p.current_conditions {
        Some(c) => json_of_current(c),
        None => "No current conditions available"@,
    }
}

/// The forecast text the prompt embeds.
pub open spec fn forecast_summary_of(p: FeaturePack) -> Seq<char> {
    match p.forecast {
        Some(f) => json_of_forecast(f),
        None => "No forecast data available"@,
    }
}

/// The alerts section of the prompt: present exactly when the snapshot
/// carries alerts, and then instructing the model to put safety first.
pub open spec fn alerts_section_of(p: FeaturePack) -> Seq<char> {
    if p.alerts@.len() > 0 {
        "\n\n\u{1f6a8} ACTIVE ALERTS:\n"@ + json_of_alerts(p.alerts@)
            + "\n\nIMPORTANT: Integrate these alerts into your story. Prioritize safety. Explain what these alerts mean for decisions."@
    } else {
        Seq::<char>::empty()
    }
}

/// The display name the prompt addresses; the prompt has its own
/// placeholder for a snapshot without a location.
pub open spec fn prompt_location_name_of(p: FeaturePack) -> Seq<char> {
    match p.location {
        Some(l) => l.name@,
        None => "Unknown Location"@,
    }
}

/// The whole generation prompt for a snapshot.
pub open spec fn prompt_text(p: FeaturePack) -> Seq<char> {
    "You are an expert meteorologist crafting a weather story for "@ + prompt_location_name_of(p)
        + ".\n\nWeather Data:\nCurrent Conditions: "@ + current_summary_of(p) + "\nForecast: "@
        + forecast_summary_of(p) + alerts_section_of(p) + prompt_guidelines()
}

impl WeatherStory {
    /// Build the natural-language prompt for a snapshot: the location
    /// name, the current-conditions and forecast JSON, the alerts
    /// section when alerts are present, and the fixed schema and
    /// guidelines the model must follow.
    pub fn build_story_prompt(feature_pack: &FeaturePack) -> (r: String)
        ensures
            r@ == prompt_text(*feature_pack),
    {
        let mut s = String::new();
        s.append("You are an expert meteorologist crafting a weather story for ");
        match &feature_pack.location {
            Some(l) => {
                s.append(l.name.as_str());
            },
            None => {
                s.append("Unknown Location");
            },
        }
        s.append(".\n\nWeather Data:\nCurrent Conditions: ");
        match &feature_pack.current_conditions {
            Some(c) => {
                s.append(current_conditions_json(c).as_str());
            },
            None => {
                s.append("No current conditions available");
            },
        }
        s.append("\nForecast: ");
        match &feature_pack.forecast {
            Some(f) => {
                s.append(forecast_json(f).as_str());
            },
            None => {
                s.append("No forecast data available");
            },
        }
        if feature_pack.alerts.len() > 0 {
            s.append("\n\n\u{1f6a8} ACTIVE ALERTS:\n");
            s.append(alerts_json(&feature_pack.alerts).as_str());
            s.append(
                "\n\nIMPORTANT: Integrate these alerts into your story. Prioritize safety. Explain what these alerts mean for decisions.",
            );
        }
        append_guidelines(&mut s);
        proof {
            assert(s@ =~= prompt_text(*feature_pack));
        }
        s
    }
}

/// The primary provider's generation endpoint for a model, keyed.
pub fn gemini_url(model: &str, api_key: &str) -> (r: String)
    ensures
        r@ == "https://generativelanguage.googleapis.com/v1beta/models/"@ + model@
            + ":generateContent?key="@ + api_key@,
{
    let mut s = String::new();
    s.append("https://generativelanguage.googleapis.com/v1beta/models/");
    s.append(model);
    s.append(":generateContent?key=");
    s.append(api_key);
    s
}

/// The secondary provider's chat-completion endpoint.
pub fn openrouter_url() -> (r: String)
    ensures
        r@ == "https://openrouter.ai/api/v1/chat/completions"@,
{
    let mut s = String::new();
    s.append("https://openrouter.ai/api/v1/chat/completions");
    s
}

/// The primary provider's request body for a prompt: the prompt as the
/// one content part, the configured temperature and token budget, and a
/// demand for JSON output.
pub fn gemini_request_body(prompt: &str, config: &Config) -> (r: String)
    ensures
        r@ == "{\"contents\":[{\"parts\":[{\"text\":"@ + json_string(prompt@)
            + "}]}],\"generationConfig\":{\"temperature\":"@ + hundredths_chars(
            config.temperature_e2 as int,
        ) + ",\"maxOutputTokens\":"@ + crate::text::dec_digits(config.max_tokens as int)
            + ",\"responseMimeType\":\"application/json\"}}"@,
{
    let mut s = String::new();
    s.append("{\"contents\":[{\"parts\":[{\"text\":");
    s.append(json_string_of(prompt).as_str());
    s.append("}]}],\"generationConfig\":{\"temperature\":");
    s.append(string_from_chars(&format_hundredths(config.temperature_e2)).as_str());
    s.append(",\"maxOutputTokens\":");
    s.append(string_from_chars(&crate::text::format_u64(config.max_tokens as u64)).as_str());
    s.append(",\"responseMimeType\":\"application/json\"}}");
    s
}

/// The secondary provider's request body for a prompt: the configured
/// model, the prompt as the one user message, the configured temperature
/// and token budget, and a demand for a JSON object.
pub fn openrouter_request_body(prompt: &str, config: &Config) -> (r: String)
    ensures
        r@ == "{\"model\":"@ + json_string(config.openrouter_model@)
            + ",\"messages\":[{\"role\":\"user\",\"content\":"@ + json_string(prompt@)
            + "}],\"temperature\":"@ + hundredths_chars(config.temperature_e2 as int)
            + ",\"max_tokens\":"@ + crate::text::dec_digits(config.max_tokens as int)
            + ",\"response_format\":{\"type\":\"json_object\"}}"@,
{
    let mut s = String::new();
    s.append("{\"model\":");
    s.append(json_string_of(config.openrouter_model.as_str()).as_str());
    s.append(",\"messages\":[{\"role\":\"user\",\"content\":");
    s.append(json_string_of(prompt).as_str());
    s.append("}],\"temperature\":");
    s.append(string_from_chars(&format_hundredths(config.temperature_e2)).as_str());
    s.append(",\"max_tokens\":");
    s.append(string_from_chars(&crate::text::format_u64(config.max_tokens as u64)).as_str());
    s.append(",\"response_format\":{\"type\":\"json_object\"}}");
    s
}

/// The fixed schema-and-guidelines tail of the generation prompt.
pub open spec fn prompt_guidelines() -> Seq<char> {
    "\n\nCreate a compelling, scientifically-grounded weather narrative as JSON:\n\n"@ + "{\n  \"setup\": \"Large-scale meteorological pattern (2-3 sentences). Mention pressure systems, fronts, jet stream position, moisture sources. Use technical terms like 'low-pressure trough', 'high-pressure ridge', 'atmospheric river', 'convergence zone'.\",\n\n"@ + "  \"current\": \"Vivid description of current conditions (2 sentences). Include sensory details and immediate impacts.\",\n\n"@ + "  \"evolution\": {\n    \"phases\": [\n      {\n        \"start_time\": \"Now\",\n        \"end_time\": \"3 hours\",\n        \"description\": \"Detailed phase description with mechanisms (lifting, cooling, mixing)\",\n        \"key_changes\": [\"Specific measurable change\", \"Another specific change\"],\n        \"confidence\": 0.85\n      }\n      // Include 3-5 phases covering next 12-24 hours\n    ]\n  },\n\n"@ + "  \"meteorology\": \"Deep dive into WHY (3-4 sentences). Explain atmospheric physics: Why is this system behaving this way? What forcings are at play? Mention CAPE, lifted index, lapse rates, wind shear, dewpoint spread, or other relevant parameters when applicable. Make the reader understand the cause-effect chain.\",\n\n"@ + "  \"decisions\": [\n    {\n      \"activity\": \"Specific activity (e.g., 'Morning commute', 'Outdoor lunch', 'Evening flight')\",\n      \"recommendation\": \"CLEAR actionable advice with specific timing\",\n      \"reasoning\": \"Physical reason based on meteorology (not just 'because rain')\",\n      \"timing\": \"Exact time window (e.g., 'Leave before 7 AM or after 9 PM')\",\n      \"confidence\": 0.8\n    }\n    // Include 3-5 decision items covering different activities and time windows\n  ],\n\n"@ + "  \"confidence\": {\n    \"primary_uncertainty\": \"Specific meteorological uncertainty (e.g., 'Exact timing of cold front passage', 'Convective initiation location')\",\n    \"alternative_scenarios\": [\n      \"If X happens: outcome\",\n      \"If Y happens: different outcome\"\n    ],\n    \"confidence_level\": \"High|Medium|Low\",\n    \"rationale\": \"Why we have this confidence (model agreement, pattern recognition, physical reasoning)\"\n  },\n\n"@ + "  \"bottom_line\": \"One punchy sentence combining impact + timing + action. Make it memorable.\"\n}\n\n"@ + "CRITICAL Guidelines:\n- EXPLAIN MECHANISMS, not just patterns. Say WHY air rises, WHY clouds form, WHY winds shift\n- Use meteorological terminology appropriately: CAPE, vorticity, baroclinic zones, thermal advection, etc.\n- Decisions must be TIME-SPECIFIC and ACTIONABLE (not vague like \"be careful\")\n- If alerts are present, EMPHASIZE THEM and explain their implications\n- Confidence should reflect actual meteorological uncertainty (not just hedging)\n- Timeline phases should show EVOLUTION not just snapshots\n- Bottom line should tell someone \"what to do when\" in one sentence\n\n"@ + "Return ONLY the JSON object, no other text."@
}

/// Append the fixed schema-and-guidelines tail to the prompt.
fn append_guidelines(s: &mut String)
    ensures
        final(s)@ == old(s)@ + prompt_guidelines(),
{
    s.append("\n\nCreate a compelling, scientifically-grounded weather narrative as JSON:\n\n");
    s.append("{\n  \"setup\": \"Large-scale meteorological pattern (2-3 sentences). Mention pressure systems, fronts, jet stream position, moisture sources. Use technical terms like 'low-pressure trough', 'high-pressure ridge', 'atmospheric river', 'convergence zone'.\",\n\n");
    s.append("  \"current\": \"Vivid description of current conditions (2 sentences). Include sensory details and immediate impacts.\",\n\n");
    s.append("  \"evolution\": {\n    \"phases\": [\n      {\n        \"start_time\": \"Now\",\n        \"end_time\": \"3 hours\",\n        \"description\": \"Detailed phase description with mechanisms (lifting, cooling, mixing)\",\n        \"key_changes\": [\"Specific measurable change\", \"Another specific change\"],\n        \"confidence\": 0.85\n      }\n      // Include 3-5 phases covering next 12-24 hours\n    ]\n  },\n\n");
    s.append("  \"meteorology\": \"Deep dive into WHY (3-4 sentences). Explain atmospheric physics: Why is this system behaving this way? What forcings are at play? Mention CAPE, lifted index, lapse rates, wind shear, dewpoint spread, or other relevant parameters when applicable. Make the reader understand the cause-effect chain.\",\n\n");
    s.append("  \"decisions\": [\n    {\n      \"activity\": \"Specific activity (e.g., 'Morning commute', 'Outdoor lunch', 'Evening flight')\",\n      \"recommendation\": \"CLEAR actionable advice with specific timing\",\n      \"reasoning\": \"Physical reason based on meteorology (not just 'because rain')\",\n      \"timing\": \"Exact time window (e.g., 'Leave before 7 AM or after 9 PM')\",\n      \"confidence\": 0.8\n    }\n    // Include 3-5 decision items covering different activities and time windows\n  ],\n\n");
    s.append("  \"confidence\": {\n    \"primary_uncertainty\": \"Specific meteorological uncertainty (e.g., 'Exact timing of cold front passage', 'Convective initiation location')\",\n    \"alternative_scenarios\": [\n      \"If X happens: outcome\",\n      \"If Y happens: different outcome\"\n    ],\n    \"confidence_level\": \"High|Medium|Low\",\n    \"rationale\": \"Why we have this confidence (model agreement, pattern recognition, physical reasoning)\"\n  },\n\n");
    s.append("  \"bottom_line\": \"One punchy sentence combining impact + timing + action. Make it memorable.\"\n}\n\n");
    s.append("CRITICAL Guidelines:\n- EXPLAIN MECHANISMS, not just patterns. Say WHY air rises, WHY clouds form, WHY winds shift\n- Use meteorological terminology appropriately: CAPE, vorticity, baroclinic zones, thermal advection, etc.\n- Decisions must be TIME-SPECIFIC and ACTIONABLE (not vague like \"be careful\")\n- If alerts are present, EMPHASIZE THEM and explain their implications\n- Confidence should reflect actual meteorological uncertainty (not just hedging)\n- Timeline phases should show EVOLUTION not just snapshots\n- Bottom line should tell someone \"what to do when\" in one sentence\n\n");
    s.append("Return ONLY the JSON object, no other text.");
    proof {
        assert(s@ =~= old(s)@ + prompt_guidelines());
    }
}

} // verus!
