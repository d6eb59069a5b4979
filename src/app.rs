//! The storybook shell: selection, brightness, preferences, the sidebar and
//! the search text, changed only through `update`.
use vstd::prelude::*;

use crate::preferences::{brightness_text, Preferences};
use crate::routing::{hash_for, lower_of, lowercase, set_url_hash};
use crate::sidebar::{build_sidebar_config, groups, SidebarConfig, SidebarConfigView};
use crate::story::{registered, StoryMeta, StoryRegistry};
use crate::text::same_text;
use crate::theme::{flipped, Brightness};

verus! {

/// Messages of the storybook shell.
#[derive(Debug, Clone)]
pub enum Message<M> {
    /// Message from a story.
    Story(M),
    /// Switch between light and dark.
    ToggleBrightness,
    /// Show the story with this id.
    SelectStory(String),
    /// The search text changed.
    SearchChanged(String),
}

/// Outside work that the shell asks for after a change.
#[derive(Debug, Clone)]
pub enum Effect {
    /// Nothing to do.
    Nothing,
    /// Store this text under the brightness preference key.
    StoreBrightness(&'static str),
    /// Replace the URL fragment with this one, adding no history entry.
    ReplaceHash(String),
}

/// The storybook application shell over a story registry.
pub struct Storybook<S: StoryRegistry> {
    /// Registry holding every story's state.
    stories: S,
    /// Id of the story shown; empty for the welcome page.
    selected: String,
    /// Current brightness.
    brightness: Brightness,
    /// User preferences.
    preferences: Preferences,
    /// Sidebar derived from the registered stories.
    sidebar_config: SidebarConfig,
    /// Current search text.
    search_query: String,
}

/// Model of the shell.
pub struct StorybookView<S> {
    pub stories: S,
    pub selected: Seq<char>,
    pub brightness: Brightness,
    pub preference: Brightness,
    pub sidebar: SidebarConfigView,
    pub search: Seq<char>,
}

impl<S: StoryRegistry> View for Storybook<S> {
    type V = StorybookView<S>;

    closed spec fn view(&self) -> StorybookView<S> {
        StorybookView {
            stories: self.stories,
            selected: self.selected@,
            brightness: self.brightness,
            preference: self.preferences@,
            sidebar: self.sidebar_config@,
            search: self.search_query@,
        }
    }
}

/// Id of the first story whose id equals `route` when both are lowercased.
pub open spec fn matched_id(stories: Seq<StoryMeta>, route: Seq<char>) -> Option<Seq<char>>
    decreases stories.len(),
{
    if stories.len() == 0 {
        None
    } else if lower_of(stories[0].id@) == lower_of(route) {
        Some(stories[0].id@)
    } else {
        matched_id(stories.drop_first(), route)
    }
}

/// A matched id is a registered one.
pub proof fn lemma_matched_is_registered(stories: Seq<StoryMeta>, route: Seq<char>)
    requires
        matched_id(stories, route) is Some,
    ensures
        registered(stories, matched_id(stories, route)->0),
    decreases stories.len(),
{
    if lower_of(stories[0].id@) != lower_of(route) {
        lemma_matched_is_registered(stories.drop_first(), route);
        let k = choose|k: int|
            0 <= k < stories.drop_first().len() && (#[trigger] stories.drop_first()[k]).id@
                == matched_id(stories, route)->0;
        assert(stories[k + 1] == stories.drop_first()[k]);
    } else {
        assert(stories[0].id@ == matched_id(stories, route)->0);
    }
}

/// The story selected at startup: the first story whose id matches the
/// route ignoring case, else the first registered story, else none (empty).
pub open spec fn initial_selection(route: Option<Seq<char>>, stories: Seq<StoryMeta>) -> Seq<char> {
    if route is Some && matched_id(stories, route->0) is Some {
        matched_id(stories, route->0)->0
    } else if stories.len() > 0 {
        stories[0].id@
    } else {
        Seq::empty()
    }
}

/// The view of an optional owned text.
pub open spec fn owned_text_view(s: Option<String>) -> Option<Seq<char>> {
    match s {
        Some(t) => Some(t@),
        None => None,
    }
}

impl<S: StoryRegistry> Storybook<S> {
    /// The shell's invariant: the brightness is the preference, and the
    /// sidebar groups the registered stories.
    pub closed spec fn wf(&self) -> bool {
        &&& self.preferences@ == self.brightness
        &&& groups(S::story_list(), self.sidebar_config@.sections)
    }

    /// A shell over a fresh registry, with the loaded preferences and the
    /// route read at startup; also returns the fragment to write back so
    /// that the resolved selection can be shared.
    pub fn new(preferences: Preferences, route: Option<String>) -> (r: (Storybook<S>, Effect))
        ensures
            r.0.wf(),
            r.0@.brightness == preferences@,
            r.0@.preference == preferences@,
            r.0@.sidebar.title == S::spec_title(),
            groups(S::story_list(), r.0@.sidebar.sections),
            r.0@.selected == initial_selection(owned_text_view(route), S::story_list()),
            r.0@.selected.len() == 0 || registered(S::story_list(), r.0@.selected),
            r.0@.search.len() == 0,
            r.1 is ReplaceHash,
            r.1->ReplaceHash_0@ == hash_for(r.0@.selected),
    {
        let stories = S::default();
        let brightness = preferences.brightness();
        let story_list = S::stories();
        let sidebar_config = build_sidebar_config(S::title(), story_list.as_slice());
        let selected = select_initial(route, story_list.as_slice());
        proof {
            let ghost rv = owned_text_view(route);
            if rv is Some && matched_id(story_list@, rv->0) is Some {
                lemma_matched_is_registered(story_list@, rv->0);
            } else if story_list@.len() > 0 {
                assert(story_list@[0].id@ == selected@);
            }
        }
        let hash = set_url_hash(selected.as_str());
        let app = Storybook {
            stories,
            selected,
            brightness,
            preferences,
            sidebar_config,
            search_query: String::new(),
        };
        (app, Effect::ReplaceHash(hash))
    }

    /// Applies a message and returns the outside work it calls for.
    pub fn update(&mut self, message: Message<S::Message>) -> (e: Effect)
        requires
            old(self).wf(),
        ensures
            final(self).wf(),
            final(self)@.preference == final(self)@.brightness,
            final(self)@.sidebar == old(self)@.sidebar,
            groups(S::story_list(), final(self)@.sidebar.sections),
            match message {
                Message::Story(m) => {
                    &&& final(self)@.stories == old(self)@.stories.updated(old(self)@.selected, m)
                    &&& final(self)@.selected == old(self)@.selected
                    &&& final(self)@.brightness == old(self)@.brightness
                    &&& final(self)@.search == old(self)@.search
                    &&& !registered(S::story_list(), old(self)@.selected) ==> final(self)@.stories
                        == old(self)@.stories
                    &&& e is Nothing
                },
                Message::ToggleBrightness => {
                    &&& final(self)@.brightness == flipped(old(self)@.brightness)
                    &&& final(self)@.selected == old(self)@.selected
                    &&& final(self)@.search == old(self)@.search
                    &&& final(self)@.stories == old(self)@.stories
                    &&& e is StoreBrightness
                    &&& e->StoreBrightness_0@ == brightness_text(final(self)@.brightness)
                },
                Message::SelectStory(id) => {
                    &&& final(self)@.selected == id@
                    &&& final(self)@.brightness == old(self)@.brightness
                    &&& final(self)@.search == old(self)@.search
                    &&& final(self)@.stories == old(self)@.stories
                    &&& e is ReplaceHash
                    &&& e->ReplaceHash_0@ == hash_for(id@)
                },
                Message::SearchChanged(query) => {
                    &&& final(self)@.search == query@
                    &&& final(self)@.selected == old(self)@.selected
                    &&& final(self)@.brightness == old(self)@.brightness
                    &&& final(self)@.stories == old(self)@.stories
                    &&& e is Nothing
                },
            },
    {
        match message {
            Message::Story(msg) => {
                self.stories.update(self.selected.as_str(), msg);
                Effect::Nothing
            },
            Message::ToggleBrightness => {
                self.brightness = self.brightness.toggle();
                self.preferences.set_brightness(self.brightness);
                Effect::StoreBrightness(self.preferences.save())
            },
            Message::SelectStory(id) => {
                let hash = set_url_hash(id.as_str());
                self.selected = id;
                Effect::ReplaceHash(hash)
            },
            Message::SearchChanged(query) => {
                self.search_query = query;
                Effect::Nothing
            },
        }
    }

    /// The registry.
    pub fn stories(&self) -> (r: &S)
        ensures
            *r == self@.stories,
    {
        &self.stories
    }

    /// Id of the story shown; empty for the welcome page.
    pub fn selected(&self) -> (r: &str)
        ensures
            r@ == self@.selected,
    {
        self.selected.as_str()
    }

    /// Current brightness.
    pub fn brightness(&self) -> (r: Brightness)
        ensures
            r == self@.brightness,
    {
        self.brightness
    }

    /// User preferences.
    pub fn preferences(&self) -> (r: &Preferences)
        ensures
            r@ == self@.preference,
    {
        &self.preferences
    }

    /// The sidebar derived from the registered stories.
    pub fn sidebar_config(&self) -> (r: &SidebarConfig)
        ensures
            r@ == self@.sidebar,
    {
        &self.sidebar_config
    }

    /// Current search text.
    pub fn search_query(&self) -> (r: &str)
        ensures
            r@ == self@.search,
    {
        self.search_query.as_str()
    }

    /// Title of the storybook.
    pub fn title(&self) -> (r: String)
        ensures
            r@ == self@.sidebar.title,
    {
        self.sidebar_config.title.clone()
    }
}

/// The story selected at startup: the route if it names a registered story,
/// else the first registered story, else none (empty).
pub fn select_initial(route: Option<String>, stories: &[StoryMeta]) -> (r: String)
    ensures
        r@ == initial_selection(owned_text_view(route), stories@),
{
    match route {
        Some(r) => {
            assert(owned_text_view(route) == Some(r@));
            assert(stories@.skip(0) =~= stories@);
            let wanted = lowercase(r.as_str());
            let mut k: usize = 0;
            while k < stories.len()
                invariant
                    k <= stories@.len(),
                    owned_text_view(route) == Some(r@),
                    wanted@ == lower_of(r@),
                    matched_id(stories@, r@) == matched_id(stories@.skip(k as int), r@),
                decreases stories@.len() - k,
            {
                let id_lower = lowercase(stories[k].id);
                assert(stories@.skip(k as int)[0] == stories@[k as int]);
                if same_text(id_lower.as_str(), wanted.as_str()) {
                    return stories[k].id.to_owned();
                }
                assert(stories@.skip(k as int).drop_first() =~= stories@.skip(k + 1));
                k = k + 1;
            }
            first_or_empty(stories)
        },
        None => first_or_empty(stories),
    }
}

/// Id of the first story, or empty when there is none.
fn first_or_empty(stories: &[StoryMeta]) -> (r: String)
    ensures
        stories@.len() > 0 ==> r@ == stories@[0].id@,
        stories@.len() == 0 ==> r@.len() == 0,
{
    if stories.len() > 0 {
        stories[0].id.to_owned()
    } else {
        String::new()
    }
}

} // verus!
