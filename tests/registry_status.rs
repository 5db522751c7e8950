use bcdice_irc_gui::registry::{Binding, SignalHandlerIdSet};
use bcdice_irc_gui::status::{context_name, StatusBarContextIDSet, StatusCategory};

#[test]
fn bind_and_look_up() {
    let mut r: SignalHandlerIdSet<u64> = SignalHandlerIdSet::new();
    assert_eq!(r.handle(Binding::HostnameEntryChanged), None);
    assert_eq!(r.bind(Binding::HostnameEntryChanged, 10), None);
    assert_eq!(r.bind(Binding::NickEntryChanged, 11), None);
    assert_eq!(r.handle(Binding::HostnameEntryChanged), Some(&10));
    assert_eq!(r.handle(Binding::NickEntryChanged), Some(&11));
    assert_eq!(r.handle(Binding::ChannelEntryChanged), None);
}

#[test]
fn rebinding_returns_old_handle() {
    let mut r: SignalHandlerIdSet<u64> = SignalHandlerIdSet::new();
    r.bind(Binding::PortSpinButtonValueChanged, 1);
    assert_eq!(r.bind(Binding::PortSpinButtonValueChanged, 2), Some(1));
    assert_eq!(r.handle(Binding::PortSpinButtonValueChanged), Some(&2));
}

#[test]
fn block_and_unblock() {
    let mut r: SignalHandlerIdSet<u64> = SignalHandlerIdSet::new();
    assert!(!r.block(Binding::ChannelEntryChanged));
    r.bind(Binding::ChannelEntryChanged, 5);
    assert!(r.block(Binding::ChannelEntryChanged));
    assert!(r.is_blocked(Binding::ChannelEntryChanged));
    assert!(!r.block(Binding::ChannelEntryChanged));
    assert_eq!(r.handle(Binding::ChannelEntryChanged), Some(&5));
    assert!(r.unblock(Binding::ChannelEntryChanged));
    assert!(!r.is_blocked(Binding::ChannelEntryChanged));
    assert!(!r.unblock(Binding::ChannelEntryChanged));
}

#[test]
fn release_removes_binding() {
    let mut r: SignalHandlerIdSet<u64> = SignalHandlerIdSet::new();
    r.bind(Binding::ConnectDisconnectButtonClicked, 9);
    assert_eq!(r.release(Binding::ConnectDisconnectButtonClicked), Some(9));
    assert_eq!(r.release(Binding::ConnectDisconnectButtonClicked), None);
    assert_eq!(r.handle(Binding::ConnectDisconnectButtonClicked), None);
}

#[test]
fn release_all_in_binding_order() {
    let mut r: SignalHandlerIdSet<u64> = SignalHandlerIdSet::new();
    r.bind(Binding::ConnectDisconnectButtonClicked, 5);
    r.bind(Binding::HostnameEntryChanged, 1);
    r.bind(Binding::ChannelEntryChanged, 4);
    r.block(Binding::ChannelEntryChanged);
    assert_eq!(r.release_all(), vec![1, 4, 5]);
    assert_eq!(r.release_all(), Vec::<u64>::new());
    assert_eq!(r.handle(Binding::HostnameEntryChanged), None);
}

#[test]
fn status_context_names() {
    assert_eq!(context_name(StatusCategory::PresetLoad), "preset_load");
    assert_eq!(context_name(StatusCategory::SavePresets), "save_presets");
    assert_eq!(context_name(StatusCategory::GameSystemChange), "game_system_change");
    assert_eq!(context_name(StatusCategory::Connection), "connection");
}

#[test]
fn status_context_ids() {
    let ids = StatusBarContextIDSet::new([3, 7, 11, 13]);
    assert_eq!(ids.id(StatusCategory::PresetLoad), 3);
    assert_eq!(ids.id(StatusCategory::SavePresets), 7);
    assert_eq!(ids.id(StatusCategory::GameSystemChange), 11);
    assert_eq!(ids.id(StatusCategory::Connection), 13);
}
