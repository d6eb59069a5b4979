//! An example storybook: four stories in two categories, and the registry
//! that dispatches to them by id.
use vstd::prelude::*;

use crate::story::{registered, Story, StoryMeta, StoryRegistry};
use crate::text::same_text;

verus! {

/// Theme provider of the example storybook.
pub struct SimpleThemeProvider;

/// Placeholder shown for a story id that no story has.
pub const STORY_NOT_FOUND: &'static str = "Story not found";

/// The placeholder for an unknown story is not empty.
pub proof fn lemma_placeholder_not_empty()
    ensures
        STORY_NOT_FOUND@.len() > 0,
{
    reveal_strlit("Story not found");
}

pub open spec fn buttons_meta() -> StoryMeta {
    StoryMeta { id: "buttons", title: "Buttons", category: "Components" }
}

pub open spec fn inputs_meta() -> StoryMeta {
    StoryMeta { id: "inputs", title: "Inputs", category: "Components" }
}

pub open spec fn typography_meta() -> StoryMeta {
    StoryMeta { id: "typography", title: "Typography", category: "Foundation" }
}

pub open spec fn colors_meta() -> StoryMeta {
    StoryMeta { id: "colors", title: "Colors", category: "Foundation" }
}

/// Story of a button that counts its clicks.
pub struct ButtonStory {
    click_count: usize,
}

/// Messages of the button story.
#[derive(Debug, Clone)]
pub enum ButtonMessage {
    Clicked,
}

impl View for ButtonStory {
    type V = usize;

    closed spec fn view(&self) -> usize {
        self.click_count
    }
}

/// The click count after one more click; it stops at the largest `usize`.
pub open spec fn after_click(count: usize) -> usize {
    if count < usize::MAX {
        (count + 1) as usize
    } else {
        count
    }
}

impl Default for ButtonStory {
    fn default() -> (r: ButtonStory)
        ensures
            r@ == 0,
    {
        ButtonStory { click_count: 0 }
    }
}

impl ButtonStory {
    /// How many times the button was clicked.
    pub fn click_count(&self) -> (r: usize)
        ensures
            r == self@,
    {
        self.click_count
    }
}

impl Story for ButtonStory {
    type Message = ButtonMessage;

    fn meta() -> (r: StoryMeta)
        ensures
            r == buttons_meta(),
    {
        StoryMeta { id: "buttons", title: "Buttons", category: "Components" }
    }

    fn update(&mut self, message: ButtonMessage)
        ensures
            final(self)@ == after_click(old(self)@),
    {
        match message {
            ButtonMessage::Clicked => {
                if self.click_count < usize::MAX {
                    self.click_count = self.click_count + 1;
                }
            },
        }
    }
}

/// Story of a text input.
pub struct InputStory {
    text_value: String,
}

/// Messages of the input story.
#[derive(Debug, Clone)]
pub enum InputMessage {
    TextChanged(String),
}

impl View for InputStory {
    type V = Seq<char>;

    closed spec fn view(&self) -> Seq<char> {
        self.text_value@
    }
}

impl Default for InputStory {
    fn default() -> (r: InputStory)
        ensures
            r@.len() == 0,
    {
        InputStory { text_value: String::new() }
    }
}

impl InputStory {
    /// The input story holding `value`.
    pub closed spec fn holding(value: String) -> InputStory {
        InputStory { text_value: value }
    }

    /// The text typed so far.
    pub fn text_value(&self) -> (r: &str)
        ensures
            r@ == self@,
    {
        self.text_value.as_str()
    }
}

impl Story for InputStory {
    type Message = InputMessage;

    fn meta() -> (r: StoryMeta)
        ensures
            r == inputs_meta(),
    {
        StoryMeta { id: "inputs", title: "Inputs", category: "Components" }
    }

    fn update(&mut self, message: InputMessage)
        ensures
            final(self)@ == (match message {
                InputMessage::TextChanged(value) => value@,
            }),
            *final(self) == (match message {
                InputMessage::TextChanged(value) => InputStory::holding(value),
            }),
    {
        match message {
            InputMessage::TextChanged(value) => {
                self.text_value = value;
            },
        }
    }
}

/// Story of the type scale; it has no state.
#[derive(Default)]
pub struct TypographyStory;

/// Messages of the typography story. The story takes none: the private
/// field keeps code outside this crate from making one.
#[derive(Debug, Clone, Copy)]
pub struct TypographyMessage {
    none: (),
}

impl Story for TypographyStory {
    type Message = TypographyMessage;

    fn meta() -> (r: StoryMeta)
        ensures
            r == typography_meta(),
    {
        StoryMeta { id: "typography", title: "Typography", category: "Foundation" }
    }

    fn update(&mut self, message: TypographyMessage) {
    }
}

/// Story of the color palette; it has no state.
#[derive(Default)]
pub struct ColorsStory;

/// Messages of the colors story. The story takes none: the private field
/// keeps code outside this crate from making one.
#[derive(Debug, Clone, Copy)]
pub struct ColorsMessage {
    none: (),
}

impl Story for ColorsStory {
    type Message = ColorsMessage;

    fn meta() -> (r: StoryMeta)
        ensures
            r == colors_meta(),
    {
        StoryMeta { id: "colors", title: "Colors", category: "Foundation" }
    }

    fn update(&mut self, message: ColorsMessage) {
    }
}

/// Messages of the example storybook, tagged by story.
#[derive(Debug, Clone)]
pub enum ExampleMessage {
    Button(ButtonMessage),
    Input(InputMessage),
    Typography(TypographyMessage),
    Colors(ColorsMessage),
}

/// Registry of the example stories.
pub struct ExampleStories {
    buttons: ButtonStory,
    inputs: InputStory,
    typography: TypographyStory,
    colors: ColorsStory,
}

/// Model of the example registry: the state of its stateful stories.
pub struct ExampleStoriesView {
    pub clicks: usize,
    pub input: Seq<char>,
}

impl View for ExampleStories {
    type V = ExampleStoriesView;

    closed spec fn view(&self) -> ExampleStoriesView {
        ExampleStoriesView { clicks: self.buttons@, input: self.inputs@ }
    }
}

/// Which story a story id shows.
#[derive(Debug, Clone, Copy, PartialEq, Eq, Structural)]
pub enum ExamplePage {
    Buttons,
    Inputs,
    Typography,
    Colors,
    NotFound,
}

/// The page that a story id shows.
pub open spec fn page_of(id: Seq<char>) -> ExamplePage {
    if id == buttons_meta().id@ {
        ExamplePage::Buttons
    } else if id == inputs_meta().id@ {
        ExamplePage::Inputs
    } else if id == typography_meta().id@ {
        ExamplePage::Typography
    } else if id == colors_meta().id@ {
        ExamplePage::Colors
    } else {
        ExamplePage::NotFound
    }
}

impl Default for ExampleStories {
    fn default() -> (r: ExampleStories)
        ensures
            r@.clicks == 0,
            r@.input.len() == 0,
    {
        ExampleStories {
            buttons: ButtonStory::default(),
            inputs: InputStory::default(),
            typography: TypographyStory,
            colors: ColorsStory,
        }
    }
}

impl ExampleStories {
    /// The button story.
    pub fn buttons(&self) -> (r: &ButtonStory)
        ensures
            r@ == self@.clicks,
    {
        &self.buttons
    }

    /// The input story.
    pub fn inputs(&self) -> (r: &InputStory)
        ensures
            r@ == self@.input,
    {
        &self.inputs
    }

    /// The page that `story_id` shows; `NotFound` for an id that no story has.
    pub fn page(story_id: &str) -> (r: ExamplePage)
        ensures
            r == page_of(story_id@),
            r == ExamplePage::NotFound <==> !registered(Self::story_list(), story_id@),
    {
        proof {
            lemma_registered_example(story_id@);
        }
        if same_text(story_id, "buttons") {
            ExamplePage::Buttons
        } else if same_text(story_id, "inputs") {
            ExamplePage::Inputs
        } else if same_text(story_id, "typography") {
            ExamplePage::Typography
        } else if same_text(story_id, "colors") {
            ExamplePage::Colors
        } else {
            ExamplePage::NotFound
        }
    }
}

/// An id is registered in the example exactly when it names one of its pages.
proof fn lemma_registered_example(id: Seq<char>)
    ensures
        registered(ExampleStories::story_list(), id) <==> page_of(id) != ExamplePage::NotFound,
{
    let list = ExampleStories::story_list();
    assert(list[0] == buttons_meta());
    assert(list[1] == inputs_meta());
    assert(list[2] == typography_meta());
    assert(list[3] == colors_meta());
    if page_of(id) != ExamplePage::NotFound {
        if id == buttons_meta().id@ {
            assert(list[0].id@ == id);
        } else if id == inputs_meta().id@ {
            assert(list[1].id@ == id);
        } else if id == typography_meta().id@ {
            assert(list[2].id@ == id);
        } else {
            assert(list[3].id@ == id);
        }
    }
}

impl StoryRegistry for ExampleStories {
    type Message = ExampleMessage;

    open spec fn story_list() -> Seq<StoryMeta> {
        seq![buttons_meta(), inputs_meta(), typography_meta(), colors_meta()]
    }

    open spec fn spec_title() -> Seq<char> {
        "Example Storybook"@
    }

    fn title() -> (r: &'static str) {
        "Example Storybook"
    }

    closed spec fn updated(&self, story_id: Seq<char>, message: ExampleMessage) -> ExampleStories {
        match message {
            ExampleMessage::Button(_) => if page_of(story_id) == ExamplePage::Buttons {
                ExampleStories {
                    buttons: ButtonStory { click_count: after_click(self.buttons.click_count) },
                    ..*self
                }
            } else {
                *self
            },
            ExampleMessage::Input(InputMessage::TextChanged(value)) => if page_of(story_id)
                == ExamplePage::Inputs {
                ExampleStories { inputs: InputStory { text_value: value }, ..*self }
            } else {
                *self
            },
            _ => *self,
        }
    }

    fn stories() -> (r: Vec<StoryMeta>) {
        let mut r: Vec<StoryMeta> = Vec::new();
        r.push(ButtonStory::meta());
        r.push(InputStory::meta());
        r.push(TypographyStory::meta());
        r.push(ColorsStory::meta());
        assert(r@ =~= Self::story_list());
        r
    }

    fn update(&mut self, story_id: &str, message: ExampleMessage)
        ensures
            final(self)@ == (match message {
                ExampleMessage::Button(_) => if page_of(story_id@) == ExamplePage::Buttons {
                    ExampleStoriesView { clicks: after_click(old(self)@.clicks), ..old(self)@ }
                } else {
                    old(self)@
                },
                ExampleMessage::Input(InputMessage::TextChanged(value)) => if page_of(story_id@)
                    == ExamplePage::Inputs {
                    ExampleStoriesView { input: value@, ..old(self)@ }
                } else {
                    old(self)@
                },
                _ => old(self)@,
            }),
    {
        proof {
            lemma_registered_example(story_id@);
        }
        let page = ExampleStories::page(story_id);
        match message {
            ExampleMessage::Button(msg) => {
                if page == ExamplePage::Buttons {
                    self.buttons.update(msg);
                }
            },
            ExampleMessage::Input(msg) => {
                if page == ExamplePage::Inputs {
                    self.inputs.update(msg);
                }
            },
            ExampleMessage::Typography(msg) => {
                if page == ExamplePage::Typography {
                    self.typography.update(msg);
                }
            },
            ExampleMessage::Colors(msg) => {
                if page == ExamplePage::Colors {
                    self.colors.update(msg);
                }
            },
        }
    }
}

} // verus!
