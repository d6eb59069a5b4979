use icebook::routing::{get_initial_route, set_url_hash};

#[test]
fn route_strips_prefix() {
    assert_eq!(get_initial_route("#/colors"), Some("colors".to_string()));
    assert_eq!(get_initial_route("colors"), Some("colors".to_string()));
    assert_eq!(get_initial_route("##//colors"), Some("colors".to_string()));
    assert_eq!(get_initial_route("#/a/b"), Some("a/b".to_string()));
}

#[test]
fn route_is_lowercased() {
    assert_eq!(get_initial_route("#/COLORS"), Some("colors".to_string()));
    assert_eq!(get_initial_route("#/Buttons"), Some("buttons".to_string()));
}

#[test]
fn empty_route_is_none() {
    assert_eq!(get_initial_route(""), None);
    assert_eq!(get_initial_route("#"), None);
    assert_eq!(get_initial_route("#/"), None);
    assert_eq!(get_initial_route("#//"), None);
}

#[test]
fn hash_for_story() {
    assert_eq!(set_url_hash("colors"), "#/colors");
    assert_eq!(set_url_hash(""), "");
    assert_eq!(set_url_hash("welcome"), "#/welcome");
}

#[test]
fn written_hash_reads_back() {
    let hash = set_url_hash("colors");
    assert_eq!(get_initial_route(&hash), Some("colors".to_string()));
}
