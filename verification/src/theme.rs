//! The fixed enumeration of theme hints a request may carry, and its
//! resolution to the colour-theme catalog's stored key names.

use vstd::prelude::*;

use crate::strutil::str_eq;

verus! {

/// A requested colour theme. `Default` stands for no preference: the
/// service's configured default theme name is used instead.
#[derive(Clone, Copy, PartialEq, Eq, Structural, Debug)]
pub enum ThemeChoice {
    Default,
    InspiredGitHub,
    SolarizedLight,
    SolarizedDark,
}

/// The theme named by a request parameter, if it names one: the catalog
/// key itself or its short alias.
pub open spec fn theme_of_name(s: Seq<char>) -> Option<ThemeChoice> {
    if s == "InspiredGitHub"@ || s == "gh"@ {
        Some(ThemeChoice::InspiredGitHub)
    } else if s == "SolarizedLight"@ || s == "light"@ {
        Some(ThemeChoice::SolarizedLight)
    } else if s == "SolarizedDark"@ || s == "dark"@ {
        Some(ThemeChoice::SolarizedDark)
    } else {
        None
    }
}

/// The catalog key a theme hint resolves to; `default_theme` is the
/// configured default name, used when the hint is absent or `Default`.
pub open spec fn resolved_theme_name(hint: Option<ThemeChoice>, default_theme: Seq<char>) -> Seq<
    char,
> {
    match hint {
        Some(ThemeChoice::InspiredGitHub) => "InspiredGitHub"@,
        Some(ThemeChoice::SolarizedLight) => "Solarized (light)"@,
        Some(ThemeChoice::SolarizedDark) => "Solarized (dark)"@,
        _ => default_theme,
    }
}

impl ThemeChoice {
    /// The catalog's stored key for this theme, or `None` for `Default`.
    pub fn catalog_name(&self) -> (r: Option<&'static str>)
        ensures
            match *self {
                ThemeChoice::Default => r is None,
                ThemeChoice::InspiredGitHub => r matches Some(s) && s@ == "InspiredGitHub"@,
                ThemeChoice::SolarizedLight => r matches Some(s) && s@ == "Solarized (light)"@,
                ThemeChoice::SolarizedDark => r matches Some(s) && s@ == "Solarized (dark)"@,
            },
    {
        match *self {
            ThemeChoice::Default => None,
            ThemeChoice::InspiredGitHub => Some("InspiredGitHub"),
            ThemeChoice::SolarizedLight => Some("Solarized (light)"),
            ThemeChoice::SolarizedDark => Some("Solarized (dark)"),
        }
    }

    /// Accepts exactly the known theme names and their short aliases.
    pub fn from_param(param: &str) -> (r: Option<ThemeChoice>)
        ensures
            r == theme_of_name(param@),
    {
        if str_eq(param, "InspiredGitHub") || str_eq(param, "gh") {
            Some(ThemeChoice::InspiredGitHub)
        } else if str_eq(param, "SolarizedLight") || str_eq(param, "light") {
            Some(ThemeChoice::SolarizedLight)
        } else if str_eq(param, "SolarizedDark") || str_eq(param, "dark") {
            Some(ThemeChoice::SolarizedDark)
        } else {
            None
        }
    }
}

/// The catalog key to look up for a request: the hint's key when the hint
/// names one, the configured default name otherwise.
pub fn theme_name_for<'a>(hint: &Option<ThemeChoice>, default_theme: &'a str) -> (r: &'a str)
    ensures
        r@ == resolved_theme_name(*hint, default_theme@),
{
    match hint {
        Some(t) => {
            match t.catalog_name() {
                Some(name) => name,
                None => default_theme,
            }
        },
        None => default_theme,
    }
}

} // verus!
