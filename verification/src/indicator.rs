//! The applet's state and what it shows.
//!
//! The state is the last report that arrived: Caps Lock on, Caps Lock off, or
//! the description of a failure. Each report replaces the one before it, and
//! the label is a function of the state alone.

use vstd::prelude::*;
use crate::message::{report_view, Message};
use crate::sample::{
    after_readings, all_read, any_lit, law_dark_leds_report_off, law_first_failure_is_reported,
    law_lit_led_reports_on,
};

verus! {

/// The label shown while Caps Lock is on.
pub const ACTIVE_LABEL: &'static str = "CAPS";

/// The label that goes with a state: `CAPS` while Caps Lock is on, nothing
/// while it is off, and the description of the failure, unchanged, where the
/// state could not be observed.
pub open spec fn label_of(state: Result<bool, Seq<char>>) -> Seq<char> {
    match state {
        Ok(true) => ACTIVE_LABEL@,
        Ok(false) => Seq::empty(),
        Err(reason) => reason,
    }
}

/// The state that follows `state` when `report` arrives: the report itself.
pub open spec fn after_update(
    state: Result<bool, Seq<char>>,
    report: Result<bool, Seq<char>>,
) -> Result<bool, Seq<char>> {
    report
}

/// The height of the applet's content: the suggested icon height with the
/// suggested padding above and below it.
pub open spec fn content_height_of(icon_height: int, padding: int) -> int {
    icon_height + 2 * padding
}

/// The state of the applet: what the last report said.
pub struct CapsLockIndicator {
    caps_active: Result<bool, String>,
}

impl View for CapsLockIndicator {
    type V = Result<bool, Seq<char>>;

    closed spec fn view(&self) -> Result<bool, Seq<char>> {
        report_view(self.caps_active)
    }
}

impl CapsLockIndicator {
    /// The state of an applet that has had no report yet: Caps Lock counts as off.
    pub fn init() -> (applet: Self)
        ensures
            applet@ == Ok::<bool, Seq<char>>(false),
    {
        CapsLockIndicator { caps_active: Ok(false) }
    }

    /// Applies a report: what it says becomes the state, whatever the state was.
    pub fn update(&mut self, message: Message)
        ensures
            final(self)@ == after_update(old(self)@, message@),
    {
        match message {
            Message::Update(caps_active) => {
                self.caps_active = caps_active;
            },
        }
    }

    /// What the last report said.
    pub fn caps_active(&self) -> (state: &Result<bool, String>)
        ensures
            report_view(*state) == self@,
    {
        &self.caps_active
    }

    /// The text of the applet's label.
    pub fn label(&self) -> (text: String)
        ensures
            text@ == label_of(self@),
    {
        match &self.caps_active {
            Ok(true) => ACTIVE_LABEL.to_owned(),
            Ok(false) => String::new(),
            Err(reason) => reason.clone(),
        }
    }
}

/// Computes the height of the applet's content from the icon height and the
/// padding that the panel suggests.
pub fn content_height(icon_height: u16, padding: u16) -> (height: u32)
    ensures
        height == content_height_of(icon_height as int, padding as int),
{
    let icon: u32 = icon_height as u32;
    let pad: u32 = padding as u32;
    icon + 2 * pad
}

/// The padding of the applet's button, vertical then horizontal: none above
/// and below, the suggested padding left and right.
pub fn button_padding(padding: u16) -> (sides: [u16; 2])
    ensures
        sides[0] == 0,
        sides[1] == padding,
{
    [0, padding]
}

/// Of two reports the later one decides the state, whatever came before.
pub proof fn law_newest_report_wins(
    state: Result<bool, Seq<char>>,
    earlier: Result<bool, Seq<char>>,
    later: Result<bool, Seq<char>>,
)
    ensures
        after_update(after_update(state, earlier), later) == later,
{
}

/// A reported failure is shown as it was described, character for character.
pub proof fn law_failure_is_shown_verbatim(state: Result<bool, Seq<char>>, reason: Seq<char>)
    ensures
        label_of(after_update(state, Err(reason))) == reason,
{
}

/// When a round finds an LED lit and its report arrives, the applet shows
/// `CAPS`, whatever it showed before and whatever else the round met.
pub proof fn law_lit_led_shows_caps(
    state: Result<bool, Seq<char>>,
    readings: Seq<Result<Seq<char>, Seq<char>>>,
)
    requires
        any_lit(readings),
    ensures
        label_of(after_update(state, after_readings(Ok(false), readings))) == ACTIVE_LABEL@,
{
    law_lit_led_reports_on(readings);
}

/// When a round reads every file and finds no LED lit and its report
/// arrives, the label is cleared, whatever it showed before.
pub proof fn law_dark_leds_clear_label(
    state: Result<bool, Seq<char>>,
    readings: Seq<Result<Seq<char>, Seq<char>>>,
)
    requires
        all_read(readings),
        !any_lit(readings),
    ensures
        label_of(after_update(state, after_readings(Ok(false), readings)))
            == Seq::<char>::empty(),
{
    law_dark_leds_report_off(readings);
}

/// When a round finds no LED lit and meets a failure and its report arrives,
/// the applet shows the description of the first failure, unchanged.
pub proof fn law_failed_reading_is_shown(
    state: Result<bool, Seq<char>>,
    readings: Seq<Result<Seq<char>, Seq<char>>>,
    first: int,
)
    requires
        !any_lit(readings),
        0 <= first < readings.len(),
        readings[first] is Err,
        all_read(readings.take(first)),
    ensures
        label_of(after_update(state, after_readings(Ok(false), readings)))
            == readings[first]->Err_0,
{
    law_first_failure_is_reported(readings, first);
}

} // verus!
