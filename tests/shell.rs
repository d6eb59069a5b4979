use icebook::app::select_initial;
use icebook::example::{
    ButtonMessage, ExampleMessage, ExamplePage, ExampleStories, InputMessage, STORY_NOT_FOUND,
};
use icebook::routing::get_initial_route;
use icebook::{Brightness, Effect, Message, Preferences, StoryMeta, StoryRegistry, Storybook};

fn shell(route: Option<&str>) -> (Storybook<ExampleStories>, Effect) {
    Storybook::<ExampleStories>::new(Preferences::load(None, None), route.map(|r| r.to_string()))
}

fn hash_of(e: &Effect) -> String {
    match e {
        Effect::ReplaceHash(h) => h.clone(),
        other => panic!("expected a fragment, got {:?}", other),
    }
}

#[test]
fn route_to_registered_story_selects_it() {
    let (app, effect) = shell(Some("colors"));
    assert_eq!(app.selected(), "colors");
    assert_eq!(hash_of(&effect), "#/colors");
}

#[test]
fn route_from_hash_end_to_end() {
    let route = get_initial_route("#/colors");
    let (app, effect) =
        Storybook::<ExampleStories>::new(Preferences::load(None, None), route);
    assert_eq!(app.selected(), "colors");
    assert_eq!(hash_of(&effect), "#/colors");
}

#[test]
fn route_matches_case_insensitively() {
    let route = get_initial_route("#/Typography");
    let (app, _) = Storybook::<ExampleStories>::new(Preferences::load(None, None), route);
    assert_eq!(app.selected(), "typography");
}

#[test]
fn unregistered_route_falls_back_to_first_story() {
    let (app, effect) = shell(Some("missing-id"));
    assert_eq!(app.selected(), "buttons");
    assert_eq!(hash_of(&effect), "#/buttons");
}

#[test]
fn no_route_selects_first_story() {
    let (app, effect) = shell(None);
    assert_eq!(app.selected(), "buttons");
    assert_eq!(hash_of(&effect), "#/buttons");
    assert_eq!(app.search_query(), "");
    assert_eq!(app.brightness(), Brightness::Dark);
}

#[test]
fn selection_from_empty_list_is_empty() {
    assert_eq!(select_initial(Some("x".to_string()), &[]), "");
    assert_eq!(select_initial(None, &[]), "");
    let list = [StoryMeta { id: "only", title: "Only", category: "C" }];
    assert_eq!(select_initial(Some("only".to_string()), &list), "only");
    assert_eq!(select_initial(Some("other".to_string()), &list), "only");
}

#[test]
fn selection_ignores_case_of_ids_and_route() {
    let list = [
        StoryMeta { id: "Buttons", title: "Buttons", category: "C" },
        StoryMeta { id: "ColorPalette", title: "Colors", category: "F" },
    ];
    assert_eq!(select_initial(Some("colorpalette".to_string()), &list), "ColorPalette");
    assert_eq!(select_initial(Some("COLORPALETTE".to_string()), &list), "ColorPalette");
    assert_eq!(select_initial(Some("buttons".to_string()), &list), "Buttons");
    assert_eq!(select_initial(Some("missing".to_string()), &list), "Buttons");
    let route = get_initial_route("#/ColorPalette");
    assert_eq!(select_initial(route, &list), "ColorPalette");
}

#[test]
fn story_message_for_other_story_keeps_preferences() {
    let (mut app, _) = shell(Some("buttons"));
    app.update(Message::Story(ExampleMessage::Button(ButtonMessage::Clicked)));
    app.update(Message::SearchChanged("x".to_string()));
    app.update(Message::SelectStory("colors".to_string()));
    assert_eq!(app.preferences().brightness(), Brightness::Dark);
    assert_eq!(app.brightness(), Brightness::Dark);
}

#[test]
fn brightness_follows_preferences() {
    let (app, _) = Storybook::<ExampleStories>::new(Preferences::load(Some("light"), None), None);
    assert_eq!(app.brightness(), Brightness::Light);
    assert_eq!(app.preferences().brightness(), Brightness::Light);
}

#[test]
fn select_then_toggle_changes_only_brightness() {
    let (mut app, _) = shell(Some("colors"));
    let e1 = app.update(Message::SelectStory("buttons".to_string()));
    assert_eq!(hash_of(&e1), "#/buttons");
    assert_eq!(app.selected(), "buttons");
    let e2 = app.update(Message::ToggleBrightness);
    assert!(matches!(e2, Effect::StoreBrightness("light")));
    assert_eq!(app.selected(), "buttons");
    assert_eq!(app.brightness(), Brightness::Light);
    assert_eq!(app.preferences().brightness(), Brightness::Light);
    assert_eq!(app.search_query(), "");
}

#[test]
fn toggle_twice_restores_brightness() {
    let (mut app, _) = shell(None);
    app.update(Message::ToggleBrightness);
    let e = app.update(Message::ToggleBrightness);
    assert!(matches!(e, Effect::StoreBrightness("dark")));
    assert_eq!(app.brightness(), Brightness::Dark);
    assert_eq!(app.preferences().brightness(), Brightness::Dark);
}

#[test]
fn search_text_is_kept() {
    let (mut app, _) = shell(None);
    let e = app.update(Message::SearchChanged("but".to_string()));
    assert!(matches!(e, Effect::Nothing));
    assert_eq!(app.search_query(), "but");
    assert_eq!(app.selected(), "buttons");
}

#[test]
fn selecting_welcome_clears_hash() {
    let (mut app, _) = shell(None);
    let e = app.update(Message::SelectStory(String::new()));
    assert_eq!(hash_of(&e), "");
    assert_eq!(app.selected(), "");
}

#[test]
fn story_message_reaches_selected_story() {
    let (mut app, _) = shell(Some("buttons"));
    let e = app.update(Message::Story(ExampleMessage::Button(ButtonMessage::Clicked)));
    assert!(matches!(e, Effect::Nothing));
    app.update(Message::Story(ExampleMessage::Button(ButtonMessage::Clicked)));
    assert_eq!(app.stories().buttons().click_count(), 2);
}

#[test]
fn story_message_for_missing_story_is_ignored() {
    let (mut app, _) = shell(None);
    app.update(Message::SelectStory("missing-id".to_string()));
    app.update(Message::Story(ExampleMessage::Button(ButtonMessage::Clicked)));
    app.update(Message::Story(ExampleMessage::Input(InputMessage::TextChanged("x".to_string()))));
    assert_eq!(app.stories().buttons().click_count(), 0);
    assert_eq!(app.stories().inputs().text_value(), "");
    assert_eq!(app.selected(), "missing-id");
}

#[test]
fn registry_update_with_missing_id_changes_nothing() {
    let mut stories = ExampleStories::default();
    stories.update("missing-id", ExampleMessage::Button(ButtonMessage::Clicked));
    stories.update("missing-id", ExampleMessage::Input(InputMessage::TextChanged("x".to_string())));
    assert_eq!(stories.buttons().click_count(), 0);
    assert_eq!(stories.inputs().text_value(), "");
}

#[test]
fn registry_ignores_message_tagged_for_other_story() {
    let mut stories = ExampleStories::default();
    stories.update("inputs", ExampleMessage::Button(ButtonMessage::Clicked));
    assert_eq!(stories.buttons().click_count(), 0);
    stories.update("inputs", ExampleMessage::Input(InputMessage::TextChanged("hi".to_string())));
    assert_eq!(stories.inputs().text_value(), "hi");
}

#[test]
fn missing_story_page_is_placeholder() {
    assert_eq!(ExampleStories::page("missing-id"), ExamplePage::NotFound);
    assert_eq!(ExampleStories::page("buttons"), ExamplePage::Buttons);
    assert_eq!(ExampleStories::page("colors"), ExamplePage::Colors);
    assert!(!STORY_NOT_FOUND.is_empty());
}

#[test]
fn example_sidebar_and_title() {
    let (app, _) = shell(None);
    assert_eq!(app.title(), "Example Storybook");
    let config = app.sidebar_config();
    assert_eq!(config.title, "Example Storybook");
    let sections: Vec<(String, Vec<String>)> = config
        .sections
        .iter()
        .map(|s| (s.title.clone(), s.items.iter().map(|i| i.id.clone()).collect()))
        .collect();
    assert_eq!(
        sections,
        vec![
            ("Components".to_string(), vec!["buttons".to_string(), "inputs".to_string()]),
            ("Foundation".to_string(), vec!["typography".to_string(), "colors".to_string()]),
        ]
    );
    assert_eq!(ExampleStories::stories().len(), 4);
    assert_eq!(ExampleStories::welcome_id(), "welcome");
}
