use emulator::state::Compatibility;

#[test]
fn names_select_their_modes() {
    assert_eq!(
        Compatibility::from_name("original"),
        Some(Compatibility::Original)
    );
    assert_eq!(Compatibility::from_name("new"), Some(Compatibility::New));
}

#[test]
fn other_names_select_nothing() {
    for name in [
        "", "n", "ne", "neu", "news", "New", "NEW", "original ", " original", "Original",
        "origina1", "originals", "old", "né", "nеw", "🙂",
    ] {
        assert_eq!(Compatibility::from_name(name), None, "{:?}", name);
    }
}
