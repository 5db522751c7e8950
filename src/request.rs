//! How the results of remote requests are read.

use vstd::prelude::*;
use tokio::sync::mpsc::UnboundedSender;
use crate::event::{AppEvent, Received, VersionReport};
use crate::inbox::send_event;
use crate::poller::{run, PollerModel};

verus! {

/// Why a remote request did not succeed, with a readable cause.
#[derive(Debug)]
pub enum RequestError {
    /// No connection to the endpoint could be made.
    Connect(String),
    /// The service answered the request with an error.
    Call(String),
}

/// The outcome of a stop request as the panel sees it: a service that cannot
/// be reached counts as already stopped.
pub open spec fn stop_outcome_of(r: Result<(), RequestError>) -> Result<(), RequestError> {
    match r {
        Err(RequestError::Connect(_)) => Ok(()),
        _ => r,
    }
}

/// The event a version check posts: one for a report, none for a failure.
pub open spec fn version_event_of(r: Result<VersionReport, RequestError>) -> Option<AppEvent> {
    match r {
        Ok(v) => Some(AppEvent::Version { bcdice_irc: v.bcdice_irc, bcdice: v.bcdice }),
        Err(_) => None,
    }
}

/// Reads the result of a stop request; only an error answer from a running
/// service remains an error.
pub fn stop_outcome(r: Result<(), RequestError>) -> (o: Result<(), RequestError>)
    ensures
        o == stop_outcome_of(r),
{
    match r {
        Err(RequestError::Connect(_)) => Ok(()),
        other => other,
    }
}

/// The event that a finished version check hands to the inbox, if any.
pub fn version_event(r: Result<VersionReport, RequestError>) -> (e: Option<AppEvent>)
    ensures
        e == version_event_of(r),
{
    match r {
        Ok(v) => Some(AppEvent::from_report(v)),
        Err(_) => None,
    }
}

/// What a finished version check puts into the inbox: one report event
/// on success, nothing on failure.
pub open spec fn posted_by(r: Result<VersionReport, RequestError>) -> Seq<Received> {
    match version_event_of(r) {
        Some(e) => seq![Received::Event(e)],
        None => Seq::empty(),
    }
}

/// What a finished version check does with its result: a report is posted
/// to the inbox, a failure posts nothing. Returns `None` where nothing was
/// posted, else whether the inbox took the event.
pub fn report_version(
    tx: &UnboundedSender<AppEvent>,
    r: Result<VersionReport, RequestError>,
) -> (posted: Option<bool>)
    ensures
        posted is Some == r is Ok,
        posted is Some == version_event_of(r) is Some,
{
    match version_event(r) {
        Some(e) => Some(send_event(tx, e)),
        None => None,
    }
}

/// A version check that failed leaves the poller as if it had never been
/// made: it posts nothing, so whatever the inbox hands out afterwards has
/// the effect it would have had without it; and while the inbox stays
/// empty, every later tick leaves the poller, and so its display, as it was.
pub proof fn lemma_failed_check_changes_nothing(m: PollerModel, e: RequestError, rs: Seq<Received>)
    ensures
        posted_by(Err(e)).len() == 0,
        run(m, posted_by(Err(e)) + rs) == run(m, rs),
        (forall|i: int| 0 <= i < rs.len() ==> #[trigger] rs[i] is Empty) ==> run(m, posted_by(Err(e)) + rs) == m,
{
    assert(posted_by(Err(e)) + rs =~= rs);
    if forall|i: int| 0 <= i < rs.len() ==> #[trigger] rs[i] is Empty {
        lemma_empty_receptions_change_nothing(m, rs);
    }
}

/// Ticks that find the inbox empty change nothing.
pub proof fn lemma_empty_receptions_change_nothing(m: PollerModel, rs: Seq<Received>)
    requires
        forall|i: int| 0 <= i < rs.len() ==> #[trigger] rs[i] is Empty,
    ensures
        run(m, rs) == m,
    decreases rs.len(),
{
    if rs.len() > 0 {
        assert forall|i: int| 0 <= i < rs.drop_last().len() implies #[trigger] rs.drop_last()[i] is Empty by {
            assert(rs.drop_last()[i] == rs[i]);
        }
        lemma_empty_receptions_change_nothing(m, rs.drop_last());
        assert(rs.last() is Empty);
    }
}

} // verus!
