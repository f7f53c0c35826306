use battesty::presentation::{
    fill_color, fill_rows, shows_charging_bolt, shows_fill, shows_urgent, shows_warning, tooltip_text, FILL_CHARGING,
    FILL_NORMAL, FILL_URGENT, FILL_WARNING,
};

#[test]
fn fill_colour_follows_level_and_charging() {
    assert_eq!(fill_color(3, true), FILL_CHARGING);
    assert_eq!(fill_color(4, false), FILL_URGENT);
    assert_eq!(fill_color(5, false), FILL_WARNING);
    assert_eq!(fill_color(14, false), FILL_WARNING);
    assert_eq!(fill_color(15, false), FILL_NORMAL);
    assert_eq!(FILL_CHARGING, 0x0000C800);
}

#[test]
fn fill_height_is_proportional_and_at_least_one() {
    assert_eq!(fill_rows(48, 100), 48);
    assert_eq!(fill_rows(48, 50), 24);
    assert_eq!(fill_rows(48, 33), 15);
    assert_eq!(fill_rows(48, 1), 1);
}

#[test]
fn indicators_follow_level_and_charging() {
    assert!(!shows_fill(0));
    assert!(shows_fill(1));
    assert!(shows_charging_bolt(99, true));
    assert!(!shows_charging_bolt(100, true));
    assert!(!shows_charging_bolt(50, false));
    assert!(shows_warning(14, false));
    assert!(!shows_warning(0, false));
    assert!(!shows_warning(15, false));
    assert!(!shows_warning(10, true));
    assert!(shows_urgent(0, false));
    assert!(shows_urgent(4, false));
    assert!(!shows_urgent(5, false));
}

#[test]
fn tooltip_joins_percentage_and_eta() {
    assert_eq!(tooltip_text(50, "10h 0m"), "50% · 10h 0m");
    assert_eq!(tooltip_text(100, "Fully charged"), "100% · Fully charged");
}
