//! Story metadata and the contracts that stories and registries meet.
use vstd::prelude::*;

verus! {

/// Metadata of a story, used for sidebar navigation and routing.
#[derive(Debug, Clone, Copy)]
pub struct StoryMeta {
    /// Unique identifier and route of the story (e.g. "buttons").
    pub id: &'static str,
    /// Display title (e.g. "Buttons").
    pub title: &'static str,
    /// Category that groups the story in the sidebar (e.g. "Actions").
    pub category: &'static str,
}

/// Title of a storybook that has no title of its own.
pub const DEFAULT_TITLE: &'static str = "icebook";

/// Whether some story in `stories` has the id `id`.
pub open spec fn registered(stories: Seq<StoryMeta>, id: Seq<char>) -> bool {
    exists|k: int| 0 <= k < stories.len() && (#[trigger] stories[k]).id@ == id
}

/// A single story: a demonstration of one component, with its own state
/// and messages. Rendering lives with the user interface toolkit.
pub trait Story: Sized {
    /// Message type of this story.
    type Message;

    /// Metadata of this story.
    fn meta() -> StoryMeta;

    /// Updates the story's state with a message.
    fn update(&mut self, message: Self::Message);
}

/// The registry of all stories of a storybook, dispatching by story id.
pub trait StoryRegistry: Default {
    /// Combined message type of all stories.
    type Message;

    /// The registered stories, in registration order.
    spec fn story_list() -> Seq<StoryMeta>;

    /// Metadata of all registered stories.
    fn stories() -> (r: Vec<StoryMeta>)
        ensures
            r@ == Self::story_list(),
    ;

    /// Title of the storybook.
    spec fn spec_title() -> Seq<char>;

    /// Title of the storybook, shown in the sidebar header and the window
    /// title; `DEFAULT_TITLE` for a registry with no title of its own.
    fn title() -> (r: &'static str)
        ensures
            r@ == Self::spec_title(),
    ;

    /// Id of the welcome page.
    fn welcome_id() -> &'static str {
        "welcome"
    }

    /// The registry after `message` has been routed to the story with id
    /// `story_id`.
    spec fn updated(&self, story_id: Seq<char>, message: Self::Message) -> Self;

    /// Routes a message to the story with id `story_id`. A message for an id
    /// that no story has is ignored.
    fn update(&mut self, story_id: &str, message: Self::Message)
        ensures
            *final(self) == old(self).updated(story_id@, message),
            !registered(Self::story_list(), story_id@) ==> *final(self) == *old(self),
    ;
}

} // verus!
