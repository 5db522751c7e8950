//! What background work and the start-up path tell the foreground loop.

use vstd::prelude::*;

verus! {

/// What a remote service reports of its versions.
#[derive(Debug)]
pub struct VersionReport {
    /// Version of the bridge service.
    pub bcdice_irc: String,
    /// Version of the dice bot behind it.
    pub bcdice: String,
}

/// An event carried through the inbox to the foreground loop.
#[derive(Debug)]
pub enum AppEvent {
    /// Posted once when the loop is brought up.
    Start,
    /// Asks the loop to close the inbox and stop.
    StopReceiver,
    /// The versions that a version check obtained.
    Version { bcdice_irc: String, bcdice: String },
}

impl AppEvent {
    /// The event that carries `report` to the foreground loop.
    pub fn from_report(report: VersionReport) -> (e: AppEvent)
        ensures
            e == (AppEvent::Version { bcdice_irc: report.bcdice_irc, bcdice: report.bcdice }),
    {
        AppEvent::Version { bcdice_irc: report.bcdice_irc, bcdice: report.bcdice }
    }
}

/// What one non-blocking look into the inbox found.
#[derive(Debug)]
pub enum Received {
    /// The next event, in the order its producer sent it.
    Event(AppEvent),
    /// Nothing yet; producers remain.
    Empty,
    /// Nothing is left to drain and nothing more can come: every producer is
    /// gone, or the receiving side was closed.
    Closed,
}

} // verus!
