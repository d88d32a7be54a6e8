use tfc::banner::{color_to_states, Colors};

#[test]
fn test_all_states() {
    let (mut i1, mut i2, mut i3);
    (i1, i2, i3) = color_to_states(Colors::Off);
    assert_eq!(i1, false);
    assert_eq!(i2, false);
    assert_eq!(i3, false);
    (i1, i2, i3) = color_to_states(Colors::Red);
    assert_eq!(i1, true);
    assert_eq!(i2, false);
    assert_eq!(i3, false);
    (i1, i2, i3) = color_to_states(Colors::Green);
    assert_eq!(i1, false);
    assert_eq!(i2, true);
    assert_eq!(i3, false);
    (i1, i2, i3) = color_to_states(Colors::Yellow);
    assert_eq!(i1, true);
    assert_eq!(i2, true);
    assert_eq!(i3, false);
    (i1, i2, i3) = color_to_states(Colors::Blue);
    assert_eq!(i1, false);
    assert_eq!(i2, false);
    assert_eq!(i3, true);
    (i1, i2, i3) = color_to_states(Colors::Magenta);
    assert_eq!(i1, true);
    assert_eq!(i2, false);
    assert_eq!(i3, true);
    (i1, i2, i3) = color_to_states(Colors::Cyan);
    assert_eq!(i1, false);
    assert_eq!(i2, true);
    assert_eq!(i3, true);
    (i1, i2, i3) = color_to_states(Colors::White);
    assert_eq!(i1, true);
    assert_eq!(i2, true);
    assert_eq!(i3, true);
}

#[test]
fn color_names_and_codes() {
    assert_eq!(Colors::Off.name(), "None");
    assert_eq!(Colors::Magenta.name(), "Magenta");
    assert_eq!(Colors::White.code(), 7);
    assert_eq!(Colors::Cyan.code(), 6);
}
