use caps_lock_indicator::sample::Sample;
use caps_lock_indicator::watch::WatchList;
use caps_lock_indicator::CapsLockIndicator;

/// Runs one listing and one round against a made-up LED directory, in which
/// each entry has a name and what reading its brightness file gives.
fn show(applet: &mut CapsLockIndicator, leds: &[(&str, Result<&str, &str>)]) -> String {
    let mut list = WatchList::new();
    for (name, _) in leds {
        list.observe_entry(name);
    }
    let mut sample = Sample::new();
    for file in list.files() {
        let (_, outcome) = leds
            .iter()
            .find(|(name, _)| format!("/sys/class/leds/{}/brightness", name) == *file)
            .unwrap();
        let reading = match outcome {
            Ok(text) => Ok(text.to_string()),
            Err(reason) => Err(reason.to_string()),
        };
        if sample.observe(&reading) {
            break;
        }
    }
    applet.update(sample.message());
    applet.label()
}

#[test]
fn locked_keyboard_shows_caps() {
    let mut applet = CapsLockIndicator::init();
    let leds = [
        ("input3::capslock", Ok("1\n")),
        ("input3::numlock", Ok("0\n")),
        ("input3::scrolllock", Ok("0\n")),
    ];
    assert_eq!(show(&mut applet, &leds), "CAPS");
}

#[test]
fn unlocked_keyboard_shows_nothing() {
    let mut applet = CapsLockIndicator::init();
    let leds = [
        ("input3::capslock", Ok("0\n")),
        ("input3::numlock", Ok("1\n")),
        ("input3::scrolllock", Ok("1\n")),
    ];
    assert_eq!(show(&mut applet, &leds), "");
}

#[test]
fn unlocking_clears_the_label_in_the_next_round() {
    let mut applet = CapsLockIndicator::init();
    assert_eq!(show(&mut applet, &[("input3::capslock", Ok("1\n"))]), "CAPS");
    assert_eq!(show(&mut applet, &[("input3::capslock", Ok("0\n"))]), "");
    assert_eq!(show(&mut applet, &[("input3::capslock", Ok("1\n"))]), "CAPS");
}

#[test]
fn one_lit_keyboard_of_several_shows_caps() {
    let mut applet = CapsLockIndicator::init();
    let leds = [
        ("input3::capslock", Ok("0\n")),
        ("input11::capslock", Ok("1\n")),
        ("input27::capslock", Ok("0\n")),
    ];
    assert_eq!(show(&mut applet, &leds), "CAPS");
}

#[test]
fn unreadable_led_shows_the_failure() {
    let mut applet = CapsLockIndicator::init();
    let leds = [
        ("input3::capslock", Err("No such file or directory (os error 2)")),
        ("input3::numlock", Ok("1\n")),
    ];
    assert_eq!(
        show(&mut applet, &leds),
        "No such file or directory (os error 2)"
    );
    assert_eq!(show(&mut applet, &[("input3::capslock", Ok("0\n"))]), "");
}

#[test]
fn machine_without_caps_lock_led_shows_nothing() {
    let mut applet = CapsLockIndicator::init();
    assert_eq!(show(&mut applet, &[]), "");
    let leds = [("mmc0::", Ok("1\n")), ("input3::numlock", Ok("1\n"))];
    assert_eq!(show(&mut applet, &leds), "");
}

#[test]
fn failed_listing_shows_the_failure() {
    let mut applet = CapsLockIndicator::init();
    let mut sample = Sample::new();
    sample.observe(&Err("Permission denied (os error 13)".to_string()));
    applet.update(sample.message());
    assert_eq!(applet.label(), "Permission denied (os error 13)");
}
