use lsod::config::{default_size, Configuration};

#[test]
fn default_size_is_small_window() {
    assert_eq!(default_size(), (320, 240));
    let config = Configuration::default();
    assert_eq!(config.size, (320, 240));
    assert!(config.splits_path.is_none());
    assert!(config.layout_path.is_none());
}

#[test]
fn validate_makes_sides_nonzero() {
    let mut config = Configuration::default();
    config.size = (0, 0);
    config.validate();
    assert_eq!(config.size, (1, 1));
    config.size = (640, 0);
    config.validate();
    assert_eq!(config.size, (640, 1));
}

#[test]
fn set_width_and_height_clamp_zero() {
    let mut config = Configuration::default();
    config.set_width(0);
    assert_eq!(config.size, (1, 240));
    config.set_height(480);
    assert_eq!(config.size, (1, 480));
    config.set_width(800);
    assert_eq!(config.size, (800, 480));
}
