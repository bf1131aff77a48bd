//! One round of reading the brightness files.
//!
//! The files of a round are read in no particular order, and a reading may
//! fail. A [`Sample`] is handed the outcome of each reading as it arrives and
//! holds at every moment the report that the round would give if it ended
//! there: Caps Lock is on as soon as one LED was found lit; failing that, the
//! first failure met; failing that, Caps Lock is off. One lit LED settles the
//! round, so the readings still under way can be dropped.
//!
//! A round that has no files to go by, because the LED directory could not
//! be listed, is handed that failure in place of a reading.

use vstd::prelude::*;
use crate::leds::{is_lit, shows_lit};
use crate::message::{report_view, Message};

verus! {

/// A reading as contracts speak of it: the characters of the brightness
/// file, or those of the description of the failure.
pub open spec fn reading_view(reading: Result<String, String>) -> Result<Seq<char>, Seq<char>> {
    match reading {
        Ok(brightness) => Ok(brightness@),
        Err(reason) => Err(reason@),
    }
}

/// Whether a reading succeeded and found the LED lit.
pub open spec fn reading_lit(reading: Result<Seq<char>, Seq<char>>) -> bool {
    reading matches Ok(brightness) && shows_lit(brightness)
}

/// The report of a round that stood at `report` and then got `reading`.
pub open spec fn after_reading(
    report: Result<bool, Seq<char>>,
    reading: Result<Seq<char>, Seq<char>>,
) -> Result<bool, Seq<char>> {
    match (report, reading) {
        (Ok(true), _) => Ok(true),
        (_, Ok(brightness)) => if shows_lit(brightness) {
            Ok(true)
        } else {
            report
        },
        (Ok(false), Err(reason)) => Err(reason),
        (Err(_), Err(_)) => report,
    }
}

/// The report of a round that stood at `report` and then got all of
/// `readings`, one after the other.
pub open spec fn after_readings(
    report: Result<bool, Seq<char>>,
    readings: Seq<Result<Seq<char>, Seq<char>>>,
) -> Result<bool, Seq<char>>
    decreases readings.len(),
{
    if readings.len() == 0 {
        report
    } else {
        after_reading(after_readings(report, readings.drop_last()), readings.last())
    }
}

/// Whether one of `readings` found an LED lit.
pub open spec fn any_lit(readings: Seq<Result<Seq<char>, Seq<char>>>) -> bool {
    exists|i: int| 0 <= i < readings.len() && reading_lit(#[trigger] readings[i])
}

/// Whether every one of `readings` succeeded.
pub open spec fn all_read(readings: Seq<Result<Seq<char>, Seq<char>>>) -> bool {
    forall|i: int| 0 <= i < readings.len() ==> (#[trigger] readings[i]) is Ok
}

/// The report of a round so far.
pub struct Sample {
    report: Result<bool, String>,
}

impl View for Sample {
    type V = Result<bool, Seq<char>>;

    closed spec fn view(&self) -> Result<bool, Seq<char>> {
        report_view(self.report)
    }
}

impl Sample {
    /// The sample of a round in which nothing was read yet: Caps Lock is off.
    pub fn new() -> (sample: Self)
        ensures
            sample@ == Ok::<bool, Seq<char>>(false),
    {
        Sample { report: Ok(false) }
    }

    /// Takes in the outcome of one reading: the text of the brightness file,
    /// or the description of what kept it from being read. Returns whether
    /// the round is settled, which it is as soon as one LED was found lit.
    pub fn observe(&mut self, reading: &Result<String, String>) -> (settled: bool)
        ensures
            final(self)@ == after_reading(old(self)@, reading_view(*reading)),
            settled == (final(self)@ == Ok::<bool, Seq<char>>(true)),
    {
        match reading {
            Ok(brightness) => {
                if is_lit(brightness.as_str()) {
                    self.report = Ok(true);
                }
            },
            Err(reason) => {
                if let Ok(false) = self.report {
                    self.report = Err(reason.clone());
                }
            },
        }
        matches!(self.report, Ok(true))
    }

    /// The message that reports this sample to the applet.
    pub fn message(&self) -> (message: Message)
        ensures
            message@ == self@,
    {
        match &self.report {
            Ok(active) => Message::Update(Ok(*active)),
            Err(reason) => Message::Update(Err(reason.clone())),
        }
    }
}

/// A round in which an LED was found lit reports that Caps Lock is on,
/// whatever else was read and whatever failed.
pub proof fn law_lit_led_reports_on(readings: Seq<Result<Seq<char>, Seq<char>>>)
    requires
        any_lit(readings),
    ensures
        after_readings(Ok(false), readings) == Ok::<bool, Seq<char>>(true),
    decreases readings.len(),
{
    let i = choose|i: int| 0 <= i < readings.len() && reading_lit(#[trigger] readings[i]);
    if i < readings.len() - 1 {
        assert(reading_lit(readings.drop_last()[i]));
        law_lit_led_reports_on(readings.drop_last());
    }
}

/// A round in which every reading succeeded and no LED was found lit
/// reports that Caps Lock is off. So does a round with nothing to read.
pub proof fn law_dark_leds_report_off(readings: Seq<Result<Seq<char>, Seq<char>>>)
    requires
        all_read(readings),
        !any_lit(readings),
    ensures
        after_readings(Ok(false), readings) == Ok::<bool, Seq<char>>(false),
    decreases readings.len(),
{
    if readings.len() > 0 {
        let earlier = readings.drop_last();
        assert forall|i: int| 0 <= i < earlier.len() implies (#[trigger] earlier[i]) is Ok by {
            assert(readings[i] is Ok);
        }
        if any_lit(earlier) {
            let i = choose|i: int| 0 <= i < earlier.len() && reading_lit(#[trigger] earlier[i]);
            assert(reading_lit(readings[i]));
        }
        law_dark_leds_report_off(earlier);
        assert(readings[readings.len() - 1] is Ok);
        assert(!reading_lit(readings[readings.len() - 1]));
    }
}

/// A round in which no LED was found lit and a reading failed reports the
/// first failure, described as it was handed in.
pub proof fn law_first_failure_is_reported(
    readings: Seq<Result<Seq<char>, Seq<char>>>,
    first: int,
)
    requires
        !any_lit(readings),
        0 <= first < readings.len(),
        readings[first] is Err,
        all_read(readings.take(first)),
    ensures
        after_readings(Ok(false), readings) == Err::<bool, Seq<char>>(readings[first]->Err_0),
    decreases readings.len(),
{
    let earlier = readings.drop_last();
    if any_lit(earlier) {
        let i = choose|i: int| 0 <= i < earlier.len() && reading_lit(#[trigger] earlier[i]);
        assert(reading_lit(readings[i]));
    }
    assert(!reading_lit(readings[readings.len() - 1]));
    if first == readings.len() - 1 {
        assert(earlier =~= readings.take(first));
        law_dark_leds_report_off(earlier);
    } else {
        assert(earlier.take(first) =~= readings.take(first));
        law_first_failure_is_reported(earlier, first);
    }
}

/// Once a round is settled, no further reading changes its report: a round
/// that stops at the first lit LED reports what the whole round would.
pub proof fn law_settled_stays_settled(readings: Seq<Result<Seq<char>, Seq<char>>>)
    ensures
        after_readings(Ok(true), readings) == Ok::<bool, Seq<char>>(true),
    decreases readings.len(),
{
    if readings.len() > 0 {
        law_settled_stays_settled(readings.drop_last());
    }
}

} // verus!
