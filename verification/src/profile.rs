//! User profiles: a name, preferences, API keys, and favorite locations.
//!
//! The store that persists profiles (one JSON document per profile under a
//! per-user directory, plus a pointer file naming the active one) is an
//! external collaborator; this module holds the profile values themselves
//! and every rule about them.

use vstd::prelude::*;

use crate::clock::now_rfc3339;
use crate::errors::WxError;
use crate::text::{copy_str, str_eq};

verus! {

broadcast use vstd::string::group_string_axioms;

/// Credentials for the generative-text providers.
#[derive(Clone, Debug)]
pub struct ApiKeys {
    pub gemini: Option<String>,
    pub openrouter: Option<String>,
}

/// One user profile.
#[derive(Clone, Debug)]
pub struct Profile {
    pub name: String,
    pub default_location: Option<String>,
    pub api_keys: ApiKeys,
    pub units: String,
    pub favorites: Vec<String>,
    pub created_at: String,
}

/// Whether a string can name a profile: non-empty, and free of path
/// separators.
pub open spec fn valid_profile_name(name: Seq<char>) -> bool {
    name.len() > 0 && forall|i: int| 0 <= i < name.len() ==> name[i] != '/' && #[trigger] name[i]
        != '\\'
}

/// Whether one of the favorites reads as the given location.
pub open spec fn has_favorite(favorites: Seq<String>, location: Seq<char>) -> bool {
    exists|i: int| 0 <= i < favorites.len() && #[trigger] favorites[i]@ == location
}

impl Profile {
    /// A fresh profile: imperial units, no keys, no favorites, stamped
    /// with the current wall-clock time.
    pub fn new(name: &str) -> (p: Profile)
        ensures
            p.name@ == name@,
            p.default_location is None,
            p.api_keys.gemini is None,
            p.api_keys.openrouter is None,
            p.units@ == "imperial"@,
            p.favorites@ =~= Seq::<String>::empty(),
    {
        Profile {
            name: copy_str(name),
            default_location: None,
            api_keys: ApiKeys { gemini: None, openrouter: None },
            units: copy_str("imperial"),
            favorites: Vec::new(),
            created_at: now_rfc3339(),
        }
    }

    /// The file that persists the profile of the given name, under the
    /// given profiles directory.
    pub fn profile_path(dir: &str, name: &str) -> (r: String)
        ensures
            r@ == dir@ + "/"@ + name@ + ".json"@,
    {
        let mut r = String::new();
        r.append(dir);
        r.append("/");
        r.append(name);
        r.append(".json");
        r
    }

    /// The pointer file that names the active profile.
    pub fn current_profile_path(dir: &str) -> (r: String)
        ensures
            r@ == dir@ + "/.current"@,
    {
        let mut r = String::new();
        r.append(dir);
        r.append("/.current");
        r
    }

    /// Whether a string can name a profile.
    pub fn valid_name(name: &str) -> (r: bool)
        ensures
            r == valid_profile_name(name@),
    {
        let n = name.unicode_len();
        if n == 0 {
            return false;
        }
        let mut i: usize = 0;
        while i < n
            invariant
                n == name@.len(),
                i <= n,
                forall|j: int| 0 <= j < i ==> name@[j] != '/' && #[trigger] name@[j] != '\\',
            decreases n - i,
        {
            let c = name.get_char(i);
            if c == '/' || c == '\\' {
                return false;
            }
            i = i + 1;
        }
        true
    }

    /// Set one field from its name. `default_location` and the two key
    /// fields take any value; `units` takes only `imperial` or `metric`;
    /// anything else is rejected, and a rejected update changes nothing.
    pub fn update(&mut self, field: &str, value: &str) -> (r: Result<(), WxError>)
        ensures
            r is Ok <==> (field@ == "default_location"@ || field@ == "gemini_key"@ || field@
                == "openrouter_key"@ || (field@ == "units"@ && (value@ == "imperial"@ || value@
                == "metric"@))),
            r matches Err(e) ==> e is Validation && *final(self) == *old(self),
            field@ == "default_location"@ ==> (final(self).default_location matches Some(l)
                && l@ == value@ && unchanged_but_location(*old(self), *final(self))),
            field@ == "gemini_key"@ ==> (final(self).api_keys.gemini matches Some(k) && k@
                == value@ && unchanged_but_keys(*old(self), *final(self))
                && final(self).api_keys.openrouter == old(self).api_keys.openrouter),
            field@ == "openrouter_key"@ ==> (final(self).api_keys.openrouter matches Some(k) && k@
                == value@ && unchanged_but_keys(*old(self), *final(self))
                && final(self).api_keys.gemini == old(self).api_keys.gemini),
            field@ == "units"@ && (value@ == "imperial"@ || value@ == "metric"@) ==> final(self).units@ == value@ && unchanged_but_units(*old(self), *final(self)),
    {
        proof {
            // The field names have distinct lengths, so their texts differ.
            reveal_strlit("default_location");
            reveal_strlit("gemini_key");
            reveal_strlit("openrouter_key");
            reveal_strlit("units");
            assert("default_location"@.len() == 16);
            assert("gemini_key"@.len() == 10);
            assert("openrouter_key"@.len() == 14);
            assert("units"@.len() == 5);
            assert("default_location"@ != "gemini_key"@);
            assert("default_location"@ != "openrouter_key"@);
            assert("default_location"@ != "units"@);
            assert("gemini_key"@ != "openrouter_key"@);
            assert("gemini_key"@ != "units"@);
            assert("openrouter_key"@ != "units"@);
        }
        if str_eq(field, "default_location") {
            self.default_location = Some(copy_str(value));
            Ok(())
        } else if str_eq(field, "gemini_key") {
            self.api_keys.gemini = Some(copy_str(value));
            Ok(())
        } else if str_eq(field, "openrouter_key") {
            self.api_keys.openrouter = Some(copy_str(value));
            Ok(())
        } else if str_eq(field, "units") {
            if !str_eq(value, "imperial") && !str_eq(value, "metric") {
                return Err(WxError::Validation(copy_str("Units must be 'imperial' or 'metric'")));
            }
            self.units = copy_str(value);
            Ok(())
        } else {
            let mut m = String::new();
            m.append("Unknown field: ");
            m.append(field);
            Err(WxError::Validation(m))
        }
    }

    /// Add a favorite location, once: a location already on the list is
    /// not added again.
    pub fn add_favorite(&mut self, location: &str)
        ensures
            has_favorite(old(self).favorites@, location@) ==> *final(self) == *old(self),
            !has_favorite(old(self).favorites@, location@) ==> final(self).favorites@.len() == old(self).favorites@.len() + 1 && final(self).favorites@.subrange(
                0,
                old(self).favorites@.len() as int,
            ) == old(self).favorites@ && final(self).favorites@.last()@ == location@
                && unchanged_but_favorites(*old(self), *final(self)),
    {
        let n = self.favorites.len();
        let mut i: usize = 0;
        while i < n
            invariant
                *self == *old(self),
                n == self.favorites@.len(),
                i <= n,
                forall|j: int| 0 <= j < i ==> #[trigger] self.favorites@[j]@ != location@,
            decreases n - i,
        {
            if str_eq(self.favorites[i].as_str(), location) {
                return ;
            }
            i = i + 1;
        }
        self.favorites.push(copy_str(location));
        proof {
            assert(self.favorites@.subrange(0, old(self).favorites@.len() as int) =~= old(self).favorites@);
        }
    }

    /// Drop every favorite that reads as the given location.
    pub fn remove_favorite(&mut self, location: &str)
        ensures
            final(self).favorites@ == old(self).favorites@.filter(
                |l: String| l@ != location@,
            ),
            unchanged_but_favorites(*old(self), *final(self)),
    {
        let n = self.favorites.len();
        let mut kept: Vec<String> = Vec::new();
        let mut i: usize = 0;
        proof {
            reveal_with_fuel(Seq::<String>::filter, 1);
            assert(self.favorites@.subrange(0, 0) =~= Seq::<String>::empty());
            assert(Seq::<String>::empty().filter(|l: String| l@ != location@) =~= Seq::<
                String,
            >::empty());
        }
        while i < n
            invariant
                *self == *old(self),
                n == self.favorites@.len(),
                i <= n,
                kept@ == self.favorites@.subrange(0, i as int).filter(|l: String| l@ != location@),
            decreases n - i,
        {
            proof {
                let pred = |l: String| l@ != location@;
                let pre = self.favorites@.subrange(0, i as int);
                let cur = self.favorites@.subrange(0, i as int + 1);
                assert(cur.drop_last() =~= pre);
                reveal_with_fuel(Seq::<String>::filter, 2);
                assert(cur.filter(pred) == if pred(cur.last()) {
                    pre.filter(pred).push(cur.last())
                } else {
                    pre.filter(pred)
                });
                assert(cur.last() == self.favorites@[i as int]);
            }
            if !str_eq(self.favorites[i].as_str(), location) {
                let kept_one = self.favorites[i].clone();
                kept.push(kept_one);
            }
            i = i + 1;
        }
        proof {
            assert(self.favorites@.subrange(0, n as int) =~= self.favorites@);
        }
        self.favorites = kept;
    }
}

/// The profiles agree on everything except the default location.
pub open spec fn unchanged_but_location(a: Profile, b: Profile) -> bool {
    a.name == b.name && a.api_keys == b.api_keys && a.units == b.units && a.favorites
        == b.favorites && a.created_at == b.created_at
}

/// The profiles agree on everything except the API keys.
pub open spec fn unchanged_but_keys(a: Profile, b: Profile) -> bool {
    a.name == b.name && a.default_location == b.default_location && a.units == b.units
        && a.favorites == b.favorites && a.created_at == b.created_at
}

/// The profiles agree on everything except the unit system.
pub open spec fn unchanged_but_units(a: Profile, b: Profile) -> bool {
    a.name == b.name && a.default_location == b.default_location && a.api_keys == b.api_keys
        && a.favorites == b.favorites && a.created_at == b.created_at
}

/// The profiles agree on everything except the favorites.
pub open spec fn unchanged_but_favorites(a: Profile, b: Profile) -> bool {
    a.name == b.name && a.default_location == b.default_location && a.api_keys == b.api_keys
        && a.units == b.units && a.created_at == b.created_at
}

} // verus!
