//! The foreground loop's tick: a two-state machine fed from the inbox.

use vstd::prelude::*;
use tokio::sync::mpsc::UnboundedReceiver;
use crate::event::{AppEvent, Received};
use crate::inbox::{close_inbox, try_receive};
use crate::label::{full_label, gui_label, gui_version_text, version_text};

verus! {

/// What the host loop does after a tick.
#[derive(Debug, Clone, Copy, PartialEq, Eq, Structural)]
pub enum TickAction {
    /// Nothing happened; tick again.
    Continue,
    /// The start-up event came through; tick again.
    Started,
    /// The version display changed; show it and tick again.
    ShowVersion,
    /// A stop request came through: the inbox is closed and the poller has
    /// stopped; unregister the tick.
    CloseAndStop,
    /// The poller has stopped; unregister the tick.
    Stop,
}

/// The poller as the contracts see it.
pub struct PollerModel {
    /// Whether the poller has reached its terminal state.
    pub stopped: bool,
    /// The panel's own version.
    pub gui: Seq<char>,
    /// What the version display shows.
    pub display: Seq<char>,
}

/// The loop that drains the inbox once per tick of the host scheduler and
/// keeps the text of the version display.
pub struct Poller {
    stopped: bool,
    gui_version: String,
    display: String,
}

impl View for Poller {
    type V = PollerModel;

    closed spec fn view(&self) -> PollerModel {
        PollerModel { stopped: self.stopped, gui: self.gui_version@, display: self.display@ }
    }
}

/// Whether `r` ends the loop.
pub open spec fn ends_loop(r: Received) -> bool {
    r is Closed || r matches Received::Event(AppEvent::StopReceiver)
}

/// The poller after it takes `r` in state `m`.
pub open spec fn next(m: PollerModel, r: Received) -> PollerModel {
    if m.stopped {
        m
    } else {
        match r {
            Received::Event(AppEvent::Version { bcdice_irc, bcdice }) => PollerModel {
                display: full_label(m.gui, bcdice_irc@, bcdice@),
                ..m
            },
            Received::Event(AppEvent::StopReceiver) | Received::Closed => PollerModel {
                stopped: true,
                ..m
            },
            _ => m,
        }
    }
}

/// What the host loop is told after the poller takes `r` in state `m`.
pub open spec fn action(m: PollerModel, r: Received) -> TickAction {
    if m.stopped {
        TickAction::Stop
    } else {
        match r {
            Received::Event(AppEvent::Start) => TickAction::Started,
            Received::Event(AppEvent::StopReceiver) => TickAction::CloseAndStop,
            Received::Event(AppEvent::Version { .. }) => TickAction::ShowVersion,
            Received::Empty => TickAction::Continue,
            Received::Closed => TickAction::Stop,
        }
    }
}

/// The poller after it takes every element of `rs`, first to last.
pub open spec fn run(m: PollerModel, rs: Seq<Received>) -> PollerModel
    decreases rs.len(),
{
    if rs.len() == 0 {
        m
    } else {
        next(run(m, rs.drop_last()), rs.last())
    }
}

/// The display after the last version report in `rs`, or `display` where
/// `rs` holds none.
pub open spec fn shown(gui: Seq<char>, display: Seq<char>, rs: Seq<Received>) -> Seq<char>
    decreases rs.len(),
{
    if rs.len() == 0 {
        display
    } else {
        match rs.last() {
            Received::Event(AppEvent::Version { bcdice_irc, bcdice }) => full_label(
                gui,
                bcdice_irc@,
                bcdice@,
            ),
            _ => shown(gui, display, rs.drop_last()),
        }
    }
}

impl Poller {
    /// A polling loop for a panel of version `gui`, whose display shows
    /// that version alone.
    pub fn new(gui: &str) -> (r: Poller)
        ensures
            r@ == (PollerModel { stopped: false, gui: gui@, display: gui_label(gui@) }),
    {
        Poller { stopped: false, gui_version: gui.to_owned(), display: gui_version_text(gui) }
    }

    /// Whether the poller has stopped.
    pub fn is_stopped(&self) -> (r: bool)
        ensures
            r == self@.stopped,
    {
        self.stopped
    }

    /// What the version display shows.
    pub fn display(&self) -> (r: &str)
        ensures
            r@ == self@.display,
    {
        self.display.as_str()
    }

    /// Takes one look's outcome and applies its effect.
    pub fn step(&mut self, r: Received) -> (a: TickAction)
        ensures
            final(self)@ == next(old(self)@, r),
            a == action(old(self)@, r),
    {
        if self.stopped {
            return TickAction::Stop;
        }
        match r {
            Received::Event(AppEvent::Start) => TickAction::Started,
            Received::Event(AppEvent::StopReceiver) => {
                self.stopped = true;
                TickAction::CloseAndStop
            },
            Received::Event(AppEvent::Version { bcdice_irc, bcdice }) => {
                self.display = version_text(self.gui_version.as_str(), bcdice_irc.as_str(), bcdice.as_str());
                TickAction::ShowVersion
            },
            Received::Empty => TickAction::Continue,
            Received::Closed => {
                self.stopped = true;
                TickAction::Stop
            },
        }
    }

    /// One tick: looks into the inbox once and applies what it found. The
    /// inbox is closed exactly when the returned action is
    /// [`TickAction::CloseAndStop`], that is, on a stop request. A stopped poller
    /// does not look into the inbox at all, so nothing queued behind a stop
    /// request is taken.
    pub fn tick(&mut self, rx: &mut UnboundedReceiver<AppEvent>) -> (a: TickAction)
        ensures
            old(self)@.stopped ==> final(self)@ == old(self)@ && a == TickAction::Stop,
            !old(self)@.stopped ==> exists|r: Received|
                final(self)@ == #[trigger] next(old(self)@, r) && a == action(old(self)@, r),
    {
        if self.stopped {
            return TickAction::Stop;
        }
        let r = try_receive(rx);
        let ghost seen = r;
        let a = self.step(r);
        if a == TickAction::CloseAndStop {
            close_inbox(rx);
        }
        assert(self@ == next(old(self)@, seen));
        a
    }
}

/// A stopped poller stays as it is, whatever it is handed.
pub proof fn lemma_stopped_is_final(m: PollerModel, rs: Seq<Received>)
    requires
        m.stopped,
    ensures
        run(m, rs) == m,
    decreases rs.len(),
{
    if rs.len() > 0 {
        lemma_stopped_is_final(m, rs.drop_last());
    }
}

/// Taking `a` and then `b` is taking `a + b`.
pub proof fn lemma_run_append(m: PollerModel, a: Seq<Received>, b: Seq<Received>)
    ensures
        run(m, a + b) == run(run(m, a), b),
    decreases b.len(),
{
    if b.len() > 0 {
        assert((a + b).drop_last() =~= a + b.drop_last());
        assert((a + b).last() == b.last());
        lemma_run_append(m, a, b.drop_last());
    }
}

/// A stop request stops a running poller on the tick that takes it, has the
/// inbox closed, leaves the display as it was, and nothing taken after it
/// has any effect.
pub proof fn lemma_stop_request_stops(m: PollerModel, before: Seq<Received>, after: Seq<Received>)
    requires
        !run(m, before).stopped,
    ensures
        ({
            let stop = Received::Event(AppEvent::StopReceiver);
            let at = run(m, before.push(stop));
            &&& at == (PollerModel { stopped: true, ..run(m, before) })
            &&& action(run(m, before), stop) == TickAction::CloseAndStop
            &&& run(m, before.push(stop) + after) == at
        }),
{
    let stop = Received::Event(AppEvent::StopReceiver);
    assert(before.push(stop).drop_last() =~= before);
    lemma_run_append(m, before.push(stop), after);
    lemma_stopped_is_final(run(m, before.push(stop)), after);
}

/// Once every producer is gone and nothing is queued, the next tick stops a
/// running poller and leaves the display as it was.
pub proof fn lemma_closed_inbox_stops(m: PollerModel)
    requires
        !m.stopped,
    ensures
        next(m, Received::Closed) == (PollerModel { stopped: true, ..m }),
        action(m, Received::Closed) == TickAction::Stop,
{
}

/// Only a version report changes the display.
pub proof fn lemma_only_reports_change_display(m: PollerModel, r: Received)
    requires
        !(r matches Received::Event(AppEvent::Version { .. })),
    ensures
        next(m, r).display == m.display,
{
}

/// Events may arrive in any order: as long as none of them ends the loop, a
/// running poller takes each as it comes, keeps running, and shows the last
/// version report that arrived.
pub proof fn lemma_any_arrival_order(m: PollerModel, rs: Seq<Received>)
    requires
        !m.stopped,
        forall|i: int| 0 <= i < rs.len() ==> !ends_loop(#[trigger] rs[i]),
    ensures
        run(m, rs) == (PollerModel { display: shown(m.gui, m.display, rs), ..m }),
    decreases rs.len(),
{
    if rs.len() > 0 {
        assert forall|i: int| 0 <= i < rs.drop_last().len() implies !ends_loop(
            #[trigger] rs.drop_last()[i],
        ) by {
            assert(rs.drop_last()[i] == rs[i]);
        }
        lemma_any_arrival_order(m, rs.drop_last());
        assert(!ends_loop(rs[rs.len() - 1]));
    }
}

} // verus!
