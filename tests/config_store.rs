use bcdice_irc_gui::config::{Config, ConfigStore, FieldChange};

#[test]
fn default_config_values() {
    let c = Config::default();
    assert_eq!(c.name, "Default");
    assert_eq!(c.hostname, "irc.trpg.net");
    assert_eq!(c.port, 6667);
    assert!(!c.use_password);
    assert_eq!(c.password, "");
    assert_eq!(c.encoding, "UTF-8");
    assert_eq!(c.nick, "BCDice");
    assert_eq!(c.channel, "Dice_Test");
    assert_eq!(c.game_system_id, "DiceBot");
}

#[test]
fn store_starts_with_defaults() {
    let s = ConfigStore::new();
    let c = s.snapshot();
    assert_eq!(c.hostname, "irc.trpg.net");
    assert_eq!(c.port, 6667);
}

#[test]
fn set_writes_only_its_field() {
    let mut s = ConfigStore::new();
    s.set(FieldChange::Hostname("irc.example.org".to_string()));
    let c = s.snapshot();
    assert_eq!(c.hostname, "irc.example.org");
    assert_eq!(c.port, 6667);
    assert_eq!(c.nick, "BCDice");
    assert_eq!(c.channel, "Dice_Test");
}

#[test]
fn set_is_idempotent() {
    let mut s = ConfigStore::new();
    s.set(FieldChange::Nick("Roller".to_string()));
    s.set(FieldChange::Nick("Roller".to_string()));
    assert_eq!(s.snapshot().nick, "Roller");
}

#[test]
fn last_write_per_field_wins_across_interleaving() {
    let mut s = ConfigStore::new();
    s.set(FieldChange::Hostname("a.example".to_string()));
    s.set(FieldChange::Port(7000));
    s.set(FieldChange::Channel("first".to_string()));
    s.set(FieldChange::Hostname("b.example".to_string()));
    s.set(FieldChange::Port(7001));
    s.set(FieldChange::Nick("bot".to_string()));
    s.set(FieldChange::Hostname("c.example".to_string()));
    let c = s.snapshot();
    assert_eq!(c.hostname, "c.example");
    assert_eq!(c.port, 7001);
    assert_eq!(c.channel, "first");
    assert_eq!(c.nick, "bot");
    assert_eq!(c.name, "Default");
}

#[test]
fn every_field_can_be_set() {
    let mut s = ConfigStore::new();
    s.set(FieldChange::Name("Preset".to_string()));
    s.set(FieldChange::UsePassword(true));
    s.set(FieldChange::Password("opensesame".to_string()));
    s.set(FieldChange::Encoding("ISO-2022-JP".to_string()));
    s.set(FieldChange::GameSystemId("Cthulhu".to_string()));
    s.set(FieldChange::Port(65535));
    let c = s.snapshot();
    assert_eq!(c.name, "Preset");
    assert!(c.use_password);
    assert_eq!(c.password, "opensesame");
    assert_eq!(c.encoding, "ISO-2022-JP");
    assert_eq!(c.game_system_id, "Cthulhu");
    assert_eq!(c.port, 65535);
}

#[test]
fn snapshot_is_independent_of_later_writes() {
    let mut s = ConfigStore::new();
    let before = s.snapshot();
    s.set(FieldChange::Channel("later".to_string()));
    assert_eq!(before.channel, "Dice_Test");
    assert_eq!(s.snapshot().channel, "later");
}

#[test]
fn copy_keeps_every_field() {
    let mut s = ConfigStore::new();
    s.set(FieldChange::Port(1));
    let c = s.snapshot();
    let d = c.copy();
    assert_eq!(d.port, 1);
    assert_eq!(d.hostname, c.hostname);
    assert_eq!(d.game_system_id, c.game_system_id);
}
