//! The handles of the bindings from input fields to the settings store.

use vstd::prelude::*;

verus! {

/// One of the bindings that the window installs.
#[derive(Debug, Clone, Copy, PartialEq, Eq, Structural)]
pub enum Binding {
    HostnameEntryChanged,
    PortSpinButtonValueChanged,
    NickEntryChanged,
    ChannelEntryChanged,
    ConnectDisconnectButtonClicked,
}

/// A live binding: the host toolkit's handle for it, and whether its
/// delivery is suspended.
pub struct Subscription<H> {
    pub handle: H,
    pub blocked: bool,
}

/// The handles of every installed binding, owned by the code that installed
/// them. `H` is the host toolkit's handle type.
pub struct SignalHandlerIdSet<H> {
    hostname_entry_changed: Option<Subscription<H>>,
    port_spin_button_value_changed: Option<Subscription<H>>,
    nick_entry_changed: Option<Subscription<H>>,
    channel_entry_changed: Option<Subscription<H>>,
    connect_disconnect_button_clicked: Option<Subscription<H>>,
}

/// The handle of `s`, if any.
pub open spec fn handle_of<H>(s: Option<Subscription<H>>) -> Option<H> {
    match s {
        Some(sub) => Some(sub.handle),
        None => None,
    }
}

/// `s` with its delivery suspended or resumed.
pub open spec fn with_blocked<H>(s: Option<Subscription<H>>, blocked: bool) -> Option<Subscription<H>> {
    match s {
        Some(sub) => Some(Subscription { handle: sub.handle, blocked }),
        None => None,
    }
}

/// The handle of `s` as a sequence of none or one.
pub open spec fn handle_seq<H>(s: Option<Subscription<H>>) -> Seq<H> {
    match s {
        Some(sub) => seq![sub.handle],
        None => Seq::empty(),
    }
}

impl<H> SignalHandlerIdSet<H> {
    /// The binding `b`, if installed.
    pub closed spec fn slot(&self, b: Binding) -> Option<Subscription<H>> {
        match b {
            Binding::HostnameEntryChanged => self.hostname_entry_changed,
            Binding::PortSpinButtonValueChanged => self.port_spin_button_value_changed,
            Binding::NickEntryChanged => self.nick_entry_changed,
            Binding::ChannelEntryChanged => self.channel_entry_changed,
            Binding::ConnectDisconnectButtonClicked => self.connect_disconnect_button_clicked,
        }
    }

    /// Every handle still installed, in the order of [`Binding`].
    pub open spec fn live_handles(&self) -> Seq<H> {
        handle_seq(self.slot(Binding::HostnameEntryChanged))
            + handle_seq(self.slot(Binding::PortSpinButtonValueChanged))
            + handle_seq(self.slot(Binding::NickEntryChanged))
            + handle_seq(self.slot(Binding::ChannelEntryChanged))
            + handle_seq(self.slot(Binding::ConnectDisconnectButtonClicked))
    }

    /// A registry with nothing installed.
    pub fn new() -> (r: Self)
        ensures
            forall|b: Binding| r.slot(b) is None,
    {
        SignalHandlerIdSet {
            hostname_entry_changed: None,
            port_spin_button_value_changed: None,
            nick_entry_changed: None,
            channel_entry_changed: None,
            connect_disconnect_button_clicked: None,
        }
    }

    fn take_slot(&mut self, b: Binding) -> (s: Option<Subscription<H>>)
        ensures
            s == old(self).slot(b),
            final(self).slot(b) is None,
            forall|c: Binding| c != b ==> final(self).slot(c) == old(self).slot(c),
    {
        match b {
            Binding::HostnameEntryChanged => self.hostname_entry_changed.take(),
            Binding::PortSpinButtonValueChanged => self.port_spin_button_value_changed.take(),
            Binding::NickEntryChanged => self.nick_entry_changed.take(),
            Binding::ChannelEntryChanged => self.channel_entry_changed.take(),
            Binding::ConnectDisconnectButtonClicked => self.connect_disconnect_button_clicked.take(),
        }
    }

    fn put_slot(&mut self, b: Binding, s: Option<Subscription<H>>)
        ensures
            final(self).slot(b) == s,
            forall|c: Binding| c != b ==> final(self).slot(c) == old(self).slot(c),
    {
        match b {
            Binding::HostnameEntryChanged => self.hostname_entry_changed = s,
            Binding::PortSpinButtonValueChanged => self.port_spin_button_value_changed = s,
            Binding::NickEntryChanged => self.nick_entry_changed = s,
            Binding::ChannelEntryChanged => self.channel_entry_changed = s,
            Binding::ConnectDisconnectButtonClicked => self.connect_disconnect_button_clicked = s,
        }
    }

    /// Records that `b` is installed under `handle`, delivering. Returns the
    /// handle it replaces, which the caller disconnects.
    pub fn bind(&mut self, b: Binding, handle: H) -> (prev: Option<H>)
        ensures
            prev == handle_of(old(self).slot(b)),
            final(self).slot(b) == Some(Subscription { handle, blocked: false }),
            forall|c: Binding| c != b ==> final(self).slot(c) == old(self).slot(c),
    {
        let prev = self.take_slot(b);
        self.put_slot(b, Some(Subscription { handle, blocked: false }));
        match prev {
            Some(s) => Some(s.handle),
            None => None,
        }
    }

    /// The handle of `b`, if installed.
    pub fn handle(&self, b: Binding) -> (r: Option<&H>)
        ensures
            r is Some == self.slot(b) is Some,
            r is Some ==> *r->0 == self.slot(b)->0.handle,
    {
        let s = match b {
            Binding::HostnameEntryChanged => &self.hostname_entry_changed,
            Binding::PortSpinButtonValueChanged => &self.port_spin_button_value_changed,
            Binding::NickEntryChanged => &self.nick_entry_changed,
            Binding::ChannelEntryChanged => &self.channel_entry_changed,
            Binding::ConnectDisconnectButtonClicked => &self.connect_disconnect_button_clicked,
        };
        match s {
            Some(sub) => Some(&sub.handle),
            None => None,
        }
    }

    /// Whether `b` is installed with its delivery suspended.
    pub fn is_blocked(&self, b: Binding) -> (r: bool)
        ensures
            r == (self.slot(b) matches Some(s) && s.blocked),
    {
        let s = match b {
            Binding::HostnameEntryChanged => &self.hostname_entry_changed,
            Binding::PortSpinButtonValueChanged => &self.port_spin_button_value_changed,
            Binding::NickEntryChanged => &self.nick_entry_changed,
            Binding::ChannelEntryChanged => &self.channel_entry_changed,
            Binding::ConnectDisconnectButtonClicked => &self.connect_disconnect_button_clicked,
        };
        match s {
            Some(sub) => sub.blocked,
            None => false,
        }
    }

    fn set_blocked(&mut self, b: Binding, blocked: bool) -> (changed: bool)
        ensures
            changed == (old(self).slot(b) matches Some(s) && s.blocked != blocked),
            final(self).slot(b) == with_blocked(old(self).slot(b), blocked),
            forall|c: Binding| c != b ==> final(self).slot(c) == old(self).slot(c),
    {
        let s = self.take_slot(b);
        match s {
            Some(sub) => {
                let changed = sub.blocked != blocked;
                self.put_slot(b, Some(Subscription { handle: sub.handle, blocked }));
                changed
            },
            None => false,
        }
    }

    /// Suspends delivery of `b` without removing it. Returns whether the
    /// caller has to block the handle in the toolkit: only where `b` is
    /// installed and was delivering.
    pub fn block(&mut self, b: Binding) -> (changed: bool)
        ensures
            changed == (old(self).slot(b) matches Some(s) && !s.blocked),
            final(self).slot(b) == with_blocked(old(self).slot(b), true),
            forall|c: Binding| c != b ==> final(self).slot(c) == old(self).slot(c),
    {
        self.set_blocked(b, true)
    }

    /// Resumes delivery of `b`. Returns whether the caller has to unblock the
    /// handle in the toolkit: only where `b` is installed and was blocked.
    pub fn unblock(&mut self, b: Binding) -> (changed: bool)
        ensures
            changed == (old(self).slot(b) matches Some(s) && s.blocked),
            final(self).slot(b) == with_blocked(old(self).slot(b), false),
            forall|c: Binding| c != b ==> final(self).slot(c) == old(self).slot(c),
    {
        self.set_blocked(b, false)
    }

    /// Removes `b` for good and hands its handle to the caller to disconnect.
    pub fn release(&mut self, b: Binding) -> (h: Option<H>)
        ensures
            h == handle_of(old(self).slot(b)),
            final(self).slot(b) is None,
            forall|c: Binding| c != b ==> final(self).slot(c) == old(self).slot(c),
    {
        match self.take_slot(b) {
            Some(s) => Some(s.handle),
            None => None,
        }
    }

    /// Removes every binding, for teardown, and hands over their handles in
    /// the order of [`Binding`].
    pub fn release_all(&mut self) -> (hs: Vec<H>)
        ensures
            hs@ == old(self).live_handles(),
            forall|b: Binding| final(self).slot(b) is None,
    {
        let ghost start = *self;
        let mut hs: Vec<H> = Vec::new();
        if let Some(h) = self.release(Binding::HostnameEntryChanged) {
            hs.push(h);
        }
        assert(hs@ =~= handle_seq(start.slot(Binding::HostnameEntryChanged)));
        let ghost acc = hs@;
        if let Some(h) = self.release(Binding::PortSpinButtonValueChanged) {
            hs.push(h);
        }
        assert(hs@ =~= acc + handle_seq(start.slot(Binding::PortSpinButtonValueChanged)));
        let ghost acc = hs@;
        if let Some(h) = self.release(Binding::NickEntryChanged) {
            hs.push(h);
        }
        assert(hs@ =~= acc + handle_seq(start.slot(Binding::NickEntryChanged)));
        let ghost acc = hs@;
        if let Some(h) = self.release(Binding::ChannelEntryChanged) {
            hs.push(h);
        }
        assert(hs@ =~= acc + handle_seq(start.slot(Binding::ChannelEntryChanged)));
        let ghost acc = hs@;
        if let Some(h) = self.release(Binding::ConnectDisconnectButtonClicked) {
            hs.push(h);
        }
        assert(hs@ =~= acc + handle_seq(start.slot(Binding::ConnectDisconnectButtonClicked)));
        assert(forall|b: Binding| self.slot(b) is None);
        hs
    }
}

} // verus!
