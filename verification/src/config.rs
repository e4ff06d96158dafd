//! Runtime configuration, assembled once at startup from environment
//! values the caller reads and hands in as plain strings.

use vstd::prelude::*;

use crate::coords::{coord_grammar_ok, coord_value_e4, parse_coord_e4};
use crate::text::{all_digits, chars_vec, copy_str, dec_value, lower, str_eq, string_from_chars, to_lower};

verus! {

/// The unit system used for display.
#[derive(Clone, Copy, Debug, PartialEq, Eq, Structural)]
pub enum Units {
    Imperial,
    Metric,
}

/// Generation and pipeline settings. Temperature is carried in hundredths
/// so that `20` stands for a generation temperature of 0.20.
#[derive(Clone, Debug)]
pub struct Config {
    pub openrouter_api_key: Option<String>,
    pub openrouter_model: String,
    pub gemini_api_key: Option<String>,
    pub gemini_model: String,
    pub temperature_e2: u32,
    pub max_tokens: u32,
    pub units: Units,
    pub offline: bool,
    pub debug: bool,
    pub privacy_mode: bool,
}

/// The raw environment values configuration is read from; a `None` field
/// is a variable that was not set.
pub struct EnvValues {
    pub openrouter_api_key: Option<String>,
    pub openrouter_model: Option<String>,
    pub gemini_api_key: Option<String>,
    pub google_api_key: Option<String>,
    pub gemini_model: Option<String>,
    pub ai_temperature: Option<String>,
    pub ai_max_tokens: Option<String>,
    pub units: Option<String>,
    pub wx_offline: Option<String>,
    pub privacy_mode: Option<String>,
}

/// The temperature a raw string selects, in hundredths: a plain decimal
/// number between 0 and 100 is accepted, truncated to hundredths;
/// anything else falls back to 0.20.
pub open spec fn temperature_of(raw: Option<Seq<char>>) -> int {
    match raw {
        Some(s) => {
            if coord_grammar_ok(s) && coord_value_e4(s) >= 0 && coord_value_e4(s) <= 1000000 {
                coord_value_e4(s) / 100
            } else {
                20
            }
        },
        None => 20,
    }
}

/// The token budget a raw string selects: a run of digits that fits a
/// `u32` is accepted; anything else falls back to 900.
pub open spec fn max_tokens_of(raw: Option<Seq<char>>) -> int {
    match raw {
        Some(s) => {
            if s.len() > 0 && all_digits(s) && dec_value(s) <= u32::MAX {
                dec_value(s)
            } else {
                900
            }
        },
        None => 900,
    }
}

/// The unit system a raw string selects: `metric` in any letter case,
/// everything else imperial.
pub open spec fn units_of(raw: Option<Seq<char>>) -> Units {
    match raw {
        Some(s) => {
            if lower(s) == "metric"@ {
                Units::Metric
            } else {
                Units::Imperial
            }
        },
        None => Units::Imperial,
    }
}

impl Config {
    /// Assemble the configuration from environment values, exactly as the
    /// environment selects it: explicit keys win, absent or malformed
    /// numbers fall back to their defaults, and the offline flag is the
    /// union of the argument and the environment switch.
    pub fn from_env(env: EnvValues, offline: bool, debug: bool) -> (c: Config)
        ensures
            c.openrouter_api_key == env.openrouter_api_key,
            c.openrouter_model@ == match env.openrouter_model {
                Some(m) => m@,
                None => "openrouter/auto"@,
            },
            c.gemini_api_key == (if env.gemini_api_key is Some {
                env.gemini_api_key
            } else {
                env.google_api_key
            }),
            c.gemini_model@ == match env.gemini_model_raw() {
                Some(m) => m,
                None => "gemini-2.0-flash-exp"@,
            },
            c.temperature_e2 == temperature_of(env.ai_temperature_view()),
            c.max_tokens == max_tokens_of(env.ai_max_tokens_view()),
            c.units == units_of(env.units_view()),
            c.offline == (offline || env.wx_offline_view() == Some("1"@)),
            c.debug == debug,
            c.privacy_mode == (env.privacy_mode_view() != Some("0"@)),
    {
        let gemini_api_key = match env.gemini_api_key {
            Some(k) => Some(k),
            None => env.google_api_key,
        };
        let openrouter_model = match env.openrouter_model {
            Some(m) => m,
            None => copy_str("openrouter/auto"),
        };
        let gemini_model = match env.gemini_model {
            Some(m) => m,
            None => copy_str("gemini-2.0-flash-exp"),
        };
        let temperature_e2: u32 = match &env.ai_temperature {
            Some(s) => {
                let cs = chars_vec(s.as_str());
                match parse_coord_e4(&cs) {
                    Some(v) => {
                        if 0 <= v && v <= 1000000 {
                            (v / 100) as u32
                        } else {
                            20
                        }
                    },
                    None => 20,
                }
            },
            None => 20,
        };
        let max_tokens: u32 = match &env.ai_max_tokens {
            Some(s) => {
                let cs = chars_vec(s.as_str());
                match crate::text::parse_u64(&cs) {
                    Some(v) => {
                        if v <= u32::MAX as u64 {
                            v as u32
                        } else {
                            900
                        }
                    },
                    None => 900,
                }
            },
            None => 900,
        };
        let units = match &env.units {
            Some(s) => {
                let cs = chars_vec(s.as_str());
                let lowered = string_from_chars(&to_lower(&cs));
                if str_eq(lowered.as_str(), "metric") {
                    Units::Metric
                } else {
                    Units::Imperial
                }
            },
            None => Units::Imperial,
        };
        let env_offline = match &env.wx_offline {
            Some(s) => str_eq(s.as_str(), "1"),
            None => false,
        };
        let privacy_mode = match &env.privacy_mode {
            Some(s) => !str_eq(s.as_str(), "0"),
            None => true,
        };
        Config {
            openrouter_api_key: env.openrouter_api_key,
            openrouter_model,
            gemini_api_key,
            gemini_model,
            temperature_e2,
            max_tokens,
            units,
            offline: offline || env_offline,
            debug,
            privacy_mode,
        }
    }
}

impl EnvValues {
    /// The model override, viewed as characters.
    pub open spec fn gemini_model_raw(&self) -> Option<Seq<char>> {
        match self.gemini_model {
            Some(ref m) => Some(m@),
            None => None,
        }
    }

    /// The temperature setting, viewed as characters.
    pub open spec fn ai_temperature_view(&self) -> Option<Seq<char>> {
        match self.ai_temperature {
            Some(ref s) => Some(s@),
            None => None,
        }
    }

    /// The token budget setting, viewed as characters.
    pub open spec fn ai_max_tokens_view(&self) -> Option<Seq<char>> {
        match self.ai_max_tokens {
            Some(ref s) => Some(s@),
            None => None,
        }
    }

    /// The unit setting, viewed as characters.
    pub open spec fn units_view(&self) -> Option<Seq<char>> {
        match self.units {
            Some(ref s) => Some(s@),
            None => None,
        }
    }

    /// The offline switch, viewed as characters.
    pub open spec fn wx_offline_view(&self) -> Option<Seq<char>> {
        match self.wx_offline {
            Some(ref s) => Some(s@),
            None => None,
        }
    }

    /// The privacy switch, viewed as characters.
    pub open spec fn privacy_mode_view(&self) -> Option<Seq<char>> {
        match self.privacy_mode {
            Some(ref s) => Some(s@),
            None => None,
        }
    }
}

} // verus!
