//! Brightness modes shared by the shell, its preferences and its themes.
use vstd::prelude::*;

verus! {

/// Brightness mode used to pick a theme.
#[derive(Debug, Clone, Copy, PartialEq, Eq, Structural)]
pub enum Brightness {
    Dark,
    Light,
}

/// The other brightness mode.
pub open spec fn flipped(b: Brightness) -> Brightness {
    match b {
        Brightness::Dark => Brightness::Light,
        Brightness::Light => Brightness::Dark,
    }
}

impl Brightness {
    /// Switches between `Dark` and `Light`.
    pub fn toggle(&self) -> (r: Brightness)
        ensures
            r == flipped(*self),
            r != *self,
    {
        match self {
            Brightness::Dark => Brightness::Light,
            Brightness::Light => Brightness::Dark,
        }
    }
}

/// Built-in sidebar styling for dark mode.
pub struct SimpleDarkSidebar;

/// Built-in sidebar styling for light mode.
pub struct SimpleLightSidebar;

/// Toggling twice gives back the brightness one started from.
pub proof fn lemma_toggle_twice(b: Brightness)
    ensures
        flipped(flipped(b)) == b,
{
}

} // verus!
