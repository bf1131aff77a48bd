//! The one message that travels from the sampling task to the applet.

use vstd::prelude::*;

verus! {

/// A report as contracts speak of it: whether Caps Lock is on, or the
/// characters of the description of a failure.
pub open spec fn report_view(report: Result<bool, String>) -> Result<bool, Seq<char>> {
    match report {
        Ok(active) => Ok(active),
        Err(reason) => Err(reason@),
    }
}

/// What the sampling task reports: the Caps Lock state it observed, or the
/// description of the failure that kept it from observing one.
#[derive(Debug)]
pub enum Message {
    Update(Result<bool, String>),
}

impl View for Message {
    type V = Result<bool, Seq<char>>;

    open spec fn view(&self) -> Result<bool, Seq<char>> {
        match self {
            Message::Update(report) => report_view(*report),
        }
    }
}

impl Clone for Message {
    fn clone(&self) -> (copy: Self)
        ensures
            copy == *self,
    {
        match self {
            Message::Update(Ok(active)) => Message::Update(Ok(*active)),
            Message::Update(Err(reason)) => Message::Update(Err(reason.clone())),
        }
    }
}

} // verus!
