use caps_lock_indicator::leds::{
    brightness_path, is_caps_lock_led, is_lit, BRIGHTNESS_FILE, CAPS_LOCK_SUFFIX, LED_DIRECTORY,
    POLL_INTERVAL_MS, SCAN_INTERVAL_MS,
};

#[test]
fn leds_are_found_under_sysfs() {
    assert_eq!(LED_DIRECTORY, "/sys/class/leds");
    assert_eq!(CAPS_LOCK_SUFFIX, "::capslock");
    assert_eq!(BRIGHTNESS_FILE, "brightness");
}

#[test]
fn directory_is_listed_once_a_second_and_files_read_twenty_times() {
    assert_eq!(SCAN_INTERVAL_MS, 1000);
    assert_eq!(POLL_INTERVAL_MS, 50);
}

#[test]
fn caps_lock_led_is_known_by_its_ending() {
    assert!(is_caps_lock_led("input3::capslock"));
    assert!(is_caps_lock_led("input11::capslock"));
    assert!(is_caps_lock_led("::capslock"));
}

#[test]
fn other_leds_are_not_caps_lock_leds() {
    assert!(!is_caps_lock_led("input3::numlock"));
    assert!(!is_caps_lock_led("input3::scrolllock"));
    assert!(!is_caps_lock_led("platform::kbd_backlight"));
    assert!(!is_caps_lock_led("input3:capslock"));
    assert!(!is_caps_lock_led("input3::capslock::"));
    assert!(!is_caps_lock_led("input3::CAPSLOCK"));
    assert!(!is_caps_lock_led("capslock"));
    assert!(!is_caps_lock_led(""));
}

#[test]
fn brightness_file_lies_in_the_leds_entry() {
    assert_eq!(
        brightness_path("input3::capslock"),
        "/sys/class/leds/input3::capslock/brightness"
    );
    assert_eq!(brightness_path("a"), "/sys/class/leds/a/brightness");
    assert_eq!(brightness_path(""), "/sys/class/leds//brightness");
}

#[test]
fn brightness_path_is_built_from_the_constants() {
    let name = "input7::capslock";
    let expected = format!("{}/{}/{}", LED_DIRECTORY, name, BRIGHTNESS_FILE);
    assert_eq!(brightness_path(name), expected);
}

#[test]
fn different_entries_have_different_brightness_files() {
    assert_ne!(
        brightness_path("input3::capslock"),
        brightness_path("input4::capslock")
    );
    assert_ne!(brightness_path("a"), brightness_path("a/"));
}

#[test]
fn led_is_lit_when_brightness_starts_with_one() {
    assert!(is_lit("1\n"));
    assert!(is_lit("1"));
    assert!(is_lit("10\n"));
}

#[test]
fn led_is_dark_otherwise() {
    assert!(!is_lit("0\n"));
    assert!(!is_lit("0"));
    assert!(!is_lit(""));
    assert!(!is_lit("\n1"));
    assert!(!is_lit(" 1\n"));
    assert!(!is_lit("255\n"));
    assert!(!is_lit("01\n"));
}

#[test]
fn names_beyond_ascii_are_handled_by_character() {
    assert!(is_caps_lock_led("clavier\u{e9}::capslock"));
    assert!(!is_caps_lock_led("::capslock\u{e9}"));
    assert_eq!(
        brightness_path("clavier\u{e9}::capslock"),
        "/sys/class/leds/clavier\u{e9}::capslock/brightness"
    );
    assert!(!is_lit("\u{661}\n"));
}
