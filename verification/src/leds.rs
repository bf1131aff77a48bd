//! Where the keyboard's Caps Lock LEDs are found and how their state is read.
//!
//! The kernel lists every LED as an entry of one directory. The entry of a
//! Caps Lock LED has a name that ends in `::capslock`, and holds a file
//! `brightness` whose text starts with `1` while the LED is lit.

use vstd::prelude::*;
use crate::text::{begins_with, ends_with, starts_with};

verus! {

/// The directory whose entries are the LEDs of the machine.
pub const LED_DIRECTORY: &'static str = "/sys/class/leds";

/// The ending shared by the names of all Caps Lock LEDs.
pub const CAPS_LOCK_SUFFIX: &'static str = "::capslock";

/// The file, inside an LED's entry, that holds its brightness.
pub const BRIGHTNESS_FILE: &'static str = "brightness";

/// Milliseconds between two listings of the LED directory.
pub const SCAN_INTERVAL_MS: u64 = 1000;

/// Milliseconds between two readings of the LEDs' brightness.
pub const POLL_INTERVAL_MS: u64 = 50;

/// Whether an entry of this name is a Caps Lock LED.
pub open spec fn is_caps_lock_name(name: Seq<char>) -> bool {
    CAPS_LOCK_SUFFIX@.is_suffix_of(name)
}

/// The path of the brightness file of the LED entry called `name`.
pub open spec fn brightness_path_of(name: Seq<char>) -> Seq<char> {
    LED_DIRECTORY@ + seq!['/'] + name + seq!['/'] + BRIGHTNESS_FILE@
}

/// Whether the text of a brightness file says that the LED is lit.
pub open spec fn shows_lit(brightness: Seq<char>) -> bool {
    begins_with(brightness, '1')
}

/// Tells whether the directory entry called `name` is a Caps Lock LED.
pub fn is_caps_lock_led(name: &str) -> (found: bool)
    ensures
        found == is_caps_lock_name(name@),
{
    ends_with(name, CAPS_LOCK_SUFFIX)
}

/// Builds the path of the brightness file of the LED entry called `name`.
pub fn brightness_path(name: &str) -> (path: String)
    ensures
        path@ == brightness_path_of(name@),
{
    let mut path = LED_DIRECTORY.to_owned();
    path.append("/");
    path.append(name);
    path.append("/");
    path.append(BRIGHTNESS_FILE);
    proof {
        reveal_strlit("/");
    }
    assert(path@ =~= brightness_path_of(name@));
    path
}

/// Tells whether the text read from a brightness file says that the LED is lit.
pub fn is_lit(brightness: &str) -> (lit: bool)
    ensures
        lit == shows_lit(brightness@),
{
    starts_with(brightness, '1')
}

/// Two entries share a brightness file only if they share a name.
pub proof fn law_paths_tell_entries_apart(first: Seq<char>, second: Seq<char>)
    requires
        brightness_path_of(first) == brightness_path_of(second),
    ensures
        first == second,
{
    let lead = LED_DIRECTORY@ + seq!['/'];
    let trail = seq!['/'] + BRIGHTNESS_FILE@;
    assert(brightness_path_of(first) =~= lead + first + trail);
    assert(brightness_path_of(second) =~= lead + second + trail);
    assert(first.len() == second.len()) by {
        assert((lead + first + trail).len() == lead.len() + first.len() + trail.len());
        assert((lead + second + trail).len() == lead.len() + second.len() + trail.len());
    }
    assert forall|i: int| 0 <= i < first.len() implies first[i] == second[i] by {
        assert((lead + first + trail)[lead.len() + i] == first[i]);
        assert((lead + second + trail)[lead.len() + i] == second[i]);
    }
    assert(first =~= second);
}

/// Every name made of some text and the Caps Lock ending is the name of a
/// Caps Lock LED, the bare ending included.
pub proof fn law_ending_makes_caps_lock_led(device: Seq<char>)
    ensures
        is_caps_lock_name(device + CAPS_LOCK_SUFFIX@),
{
    let name = device + CAPS_LOCK_SUFFIX@;
    assert(name.subrange(name.len() - CAPS_LOCK_SUFFIX@.len(), name.len() as int)
        =~= CAPS_LOCK_SUFFIX@);
}

} // verus!
