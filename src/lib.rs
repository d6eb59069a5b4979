//! A storybook shell: story registries, sidebar navigation and theme
//! brightness, with the shell's decisions stated and proved.
//!
//! The shell is a state machine: `Storybook::update` takes a message and
//! returns the outside work it calls for (`Effect`), which the program
//! around the library carries out. Rendering is left to that program.
use vstd::prelude::*;

pub mod app;
pub mod example;
pub mod preferences;
pub mod routing;
pub mod sidebar;
pub mod story;
pub mod text;
pub mod theme;

pub use app::{Effect, Message, Storybook};
pub use preferences::Preferences;
pub use sidebar::{NavItem, SidebarConfig, SidebarMessage, SidebarSection};
pub use story::{Story, StoryMeta, StoryRegistry, DEFAULT_TITLE};
pub use theme::{Brightness, SimpleDarkSidebar, SimpleLightSidebar};

verus! {

/// Name of the fallback font family loaded with every storybook.
pub const FALLBACK_FONT_NAME: &'static str = "Fira Sans";

} // verus!
