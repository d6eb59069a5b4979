//! The brightness preference: how it is stored as text, and how the
//! starting brightness is chosen from a saved value and the platform's
//! color-scheme signal.
use vstd::prelude::*;

use crate::text::same_text;
use crate::theme::Brightness;

verus! {

/// Key under which the brightness preference is stored.
pub const THEME_KEY: &'static str = "icebook_theme";

/// The stored text of a brightness.
pub open spec fn brightness_text(b: Brightness) -> Seq<char> {
    match b {
        Brightness::Dark => "dark"@,
        Brightness::Light => "light"@,
    }
}

/// The brightness that a stored text names, if it names one.
pub open spec fn parse_brightness(s: Seq<char>) -> Option<Brightness> {
    if s == "dark"@ {
        Some(Brightness::Dark)
    } else if s == "light"@ {
        Some(Brightness::Light)
    } else {
        None
    }
}

/// The brightness read from an optional stored text.
pub open spec fn loaded_brightness(stored: Option<Seq<char>>) -> Option<Brightness> {
    match stored {
        Some(s) => parse_brightness(s),
        None => None,
    }
}

/// The brightness that the platform's color-scheme signal asks for:
/// light only when the platform says it does not prefer dark.
pub open spec fn system_brightness(prefers_dark: Option<bool>) -> Brightness {
    match prefers_dark {
        Some(false) => Brightness::Light,
        _ => Brightness::Dark,
    }
}

/// The starting brightness: the saved one, else the platform's, else dark.
pub open spec fn initial_brightness(stored: Option<Seq<char>>, prefers_dark: Option<bool>) -> Brightness {
    match loaded_brightness(stored) {
        Some(b) => b,
        None => system_brightness(prefers_dark),
    }
}

/// The view of an optional text.
pub open spec fn text_view(s: Option<&str>) -> Option<Seq<char>> {
    match s {
        Some(t) => Some(t@),
        None => None,
    }
}

/// User preferences of the storybook.
#[derive(Debug, Clone)]
pub struct Preferences {
    brightness: Brightness,
}

impl View for Preferences {
    type V = Brightness;

    closed spec fn view(&self) -> Brightness {
        self.brightness
    }
}

impl Preferences {
    /// Preferences as they stand at startup, from the stored brightness text
    /// (if any) and the platform's color-scheme signal (if any).
    pub fn load(stored: Option<&str>, prefers_dark: Option<bool>) -> (r: Preferences)
        ensures
            r@ == initial_brightness(text_view(stored), prefers_dark),
    {
        Preferences { brightness: get_initial_brightness(stored, prefers_dark) }
    }

    /// The current brightness preference.
    pub fn brightness(&self) -> (r: Brightness)
        ensures
            r == self@,
    {
        self.brightness
    }

    /// Sets the brightness preference.
    pub fn set_brightness(&mut self, brightness: Brightness)
        ensures
            final(self)@ == brightness,
    {
        self.brightness = brightness;
    }

    /// The text that persists these preferences under `THEME_KEY`.
    pub fn save(&self) -> (r: &'static str)
        ensures
            r@ == brightness_text(self@),
    {
        save_brightness(self.brightness)
    }
}

impl Default for Preferences {
    fn default() -> (r: Preferences)
        ensures
            r@ == Brightness::Dark,
    {
        Preferences::load(None, None)
    }
}

/// The starting brightness: the saved preference, else the platform's
/// color-scheme signal, else dark.
pub fn get_initial_brightness(stored: Option<&str>, prefers_dark: Option<bool>) -> (r: Brightness)
    ensures
        r == initial_brightness(text_view(stored), prefers_dark),
        stored is None && prefers_dark is None ==> r == Brightness::Dark,
{
    match load_brightness(stored) {
        Some(saved) => saved,
        None => get_system_brightness(prefers_dark),
    }
}

/// The brightness that the platform's color-scheme signal asks for; dark
/// when there is no signal.
pub fn get_system_brightness(prefers_dark: Option<bool>) -> (r: Brightness)
    ensures
        r == system_brightness(prefers_dark),
{
    match prefers_dark {
        Some(false) => Brightness::Light,
        _ => Brightness::Dark,
    }
}

/// The text under which a brightness is stored.
pub fn save_brightness(brightness: Brightness) -> (r: &'static str)
    ensures
        r@ == brightness_text(brightness),
{
    match brightness {
        Brightness::Dark => "dark",
        Brightness::Light => "light",
    }
}

/// The brightness that a stored text names; `None` when nothing is stored
/// or the text is neither "dark" nor "light".
pub fn load_brightness(stored: Option<&str>) -> (r: Option<Brightness>)
    ensures
        r == loaded_brightness(text_view(stored)),
{
    match stored {
        Some(s) => {
            if same_text(s, "dark") {
                Some(Brightness::Dark)
            } else if same_text(s, "light") {
                Some(Brightness::Light)
            } else {
                None
            }
        },
        None => None,
    }
}

/// A saved brightness loads back as itself.
pub proof fn lemma_saved_brightness_loads(b: Brightness)
    ensures
        parse_brightness(brightness_text(b)) == Some(b),
{
    reveal_strlit("dark");
    reveal_strlit("light");
    assert("dark"@ != "light"@) by {
        assert("dark"@.len() != "light"@.len());
    }
}

} // verus!
