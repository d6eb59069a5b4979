use icebook::Brightness;

#[test]
fn toggle_flips_brightness() {
    assert_eq!(Brightness::Dark.toggle(), Brightness::Light);
    assert_eq!(Brightness::Light.toggle(), Brightness::Dark);
}

#[test]
fn toggle_twice_is_identity() {
    for b in [Brightness::Dark, Brightness::Light] {
        assert_eq!(b.toggle().toggle(), b);
    }
}
