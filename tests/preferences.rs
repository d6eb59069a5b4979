use icebook::preferences::{
    get_initial_brightness, get_system_brightness, load_brightness, save_brightness, THEME_KEY,
};
use icebook::{Brightness, Preferences};

#[test]
fn no_saved_preference_and_no_signal_is_dark() {
    assert_eq!(get_initial_brightness(None, None), Brightness::Dark);
    assert_eq!(Preferences::load(None, None).brightness(), Brightness::Dark);
    assert_eq!(Preferences::default().brightness(), Brightness::Dark);
}

#[test]
fn saved_preference_wins_over_signal() {
    assert_eq!(get_initial_brightness(Some("light"), Some(true)), Brightness::Light);
    assert_eq!(get_initial_brightness(Some("dark"), Some(false)), Brightness::Dark);
}

#[test]
fn signal_used_when_nothing_valid_saved() {
    assert_eq!(get_initial_brightness(None, Some(false)), Brightness::Light);
    assert_eq!(get_initial_brightness(None, Some(true)), Brightness::Dark);
    assert_eq!(get_initial_brightness(Some("purple"), Some(false)), Brightness::Light);
    assert_eq!(get_initial_brightness(Some(""), None), Brightness::Dark);
}

#[test]
fn system_brightness_from_signal() {
    assert_eq!(get_system_brightness(None), Brightness::Dark);
    assert_eq!(get_system_brightness(Some(true)), Brightness::Dark);
    assert_eq!(get_system_brightness(Some(false)), Brightness::Light);
}

#[test]
fn load_parses_only_exact_values() {
    assert_eq!(load_brightness(Some("dark")), Some(Brightness::Dark));
    assert_eq!(load_brightness(Some("light")), Some(Brightness::Light));
    assert_eq!(load_brightness(Some("Dark")), None);
    assert_eq!(load_brightness(Some("darker")), None);
    assert_eq!(load_brightness(Some("")), None);
    assert_eq!(load_brightness(None), None);
}

#[test]
fn save_writes_literal_values() {
    assert_eq!(save_brightness(Brightness::Dark), "dark");
    assert_eq!(save_brightness(Brightness::Light), "light");
    assert_eq!(THEME_KEY, "icebook_theme");
}

#[test]
fn saved_value_loads_back() {
    for b in [Brightness::Dark, Brightness::Light] {
        assert_eq!(load_brightness(Some(save_brightness(b))), Some(b));
    }
}

#[test]
fn preferences_set_and_save() {
    let mut prefs = Preferences::load(Some("dark"), None);
    assert_eq!(prefs.save(), "dark");
    prefs.set_brightness(Brightness::Light);
    assert_eq!(prefs.brightness(), Brightness::Light);
    assert_eq!(prefs.save(), "light");
}
