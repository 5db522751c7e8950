//! The connection settings and the store that field callbacks write into.

use vstd::prelude::*;

verus! {

/// Connection settings of the IRC bot.
#[derive(Debug)]
pub struct Config {
    /// Name of this set of settings.
    pub name: String,
    /// Host name of the IRC server.
    pub hostname: String,
    /// Port of the IRC server.
    pub port: u16,
    /// Whether a password is sent on connection.
    pub use_password: bool,
    /// Password sent on connection.
    pub password: String,
    /// Character encoding of the IRC server.
    pub encoding: String,
    /// Nickname of the bot.
    pub nick: String,
    /// Channel joined first.
    pub channel: String,
    /// Identifier of the game system the bot rolls for.
    pub game_system_id: String,
}

/// One of the settings of a [`Config`].
#[derive(Debug, Clone, Copy, PartialEq, Eq, Structural)]
pub enum Field {
    Name,
    Hostname,
    Port,
    UsePassword,
    Password,
    Encoding,
    Nick,
    Channel,
    GameSystemId,
}

/// The value of one setting, whatever its type.
pub enum FieldValue {
    Text(String),
    Number(u16),
    Flag(bool),
}

/// A new value for exactly one setting.
#[derive(Debug)]
pub enum FieldChange {
    Name(String),
    Hostname(String),
    Port(u16),
    UsePassword(bool),
    Password(String),
    Encoding(String),
    Nick(String),
    Channel(String),
    GameSystemId(String),
}

impl FieldChange {
    /// The setting this change writes.
    pub open spec fn field(self) -> Field {
        match self {
            FieldChange::Name(_) => Field::Name,
            FieldChange::Hostname(_) => Field::Hostname,
            FieldChange::Port(_) => Field::Port,
            FieldChange::UsePassword(_) => Field::UsePassword,
            FieldChange::Password(_) => Field::Password,
            FieldChange::Encoding(_) => Field::Encoding,
            FieldChange::Nick(_) => Field::Nick,
            FieldChange::Channel(_) => Field::Channel,
            FieldChange::GameSystemId(_) => Field::GameSystemId,
        }
    }

    /// The value this change writes.
    pub open spec fn value(self) -> FieldValue {
        match self {
            FieldChange::Name(s) => FieldValue::Text(s),
            FieldChange::Hostname(s) => FieldValue::Text(s),
            FieldChange::Port(p) => FieldValue::Number(p),
            FieldChange::UsePassword(b) => FieldValue::Flag(b),
            FieldChange::Password(s) => FieldValue::Text(s),
            FieldChange::Encoding(s) => FieldValue::Text(s),
            FieldChange::Nick(s) => FieldValue::Text(s),
            FieldChange::Channel(s) => FieldValue::Text(s),
            FieldChange::GameSystemId(s) => FieldValue::Text(s),
        }
    }
}

impl Config {
    /// The current value of setting `f`.
    pub open spec fn get(self, f: Field) -> FieldValue {
        match f {
            Field::Name => FieldValue::Text(self.name),
            Field::Hostname => FieldValue::Text(self.hostname),
            Field::Port => FieldValue::Number(self.port),
            Field::UsePassword => FieldValue::Flag(self.use_password),
            Field::Password => FieldValue::Text(self.password),
            Field::Encoding => FieldValue::Text(self.encoding),
            Field::Nick => FieldValue::Text(self.nick),
            Field::Channel => FieldValue::Text(self.channel),
            Field::GameSystemId => FieldValue::Text(self.game_system_id),
        }
    }

    /// These settings with the one that `ch` names overwritten.
    pub open spec fn with_change(self, ch: FieldChange) -> Config {
        match ch {
            FieldChange::Name(s) => Config { name: s, ..self },
            FieldChange::Hostname(s) => Config { hostname: s, ..self },
            FieldChange::Port(p) => Config { port: p, ..self },
            FieldChange::UsePassword(b) => Config { use_password: b, ..self },
            FieldChange::Password(s) => Config { password: s, ..self },
            FieldChange::Encoding(s) => Config { encoding: s, ..self },
            FieldChange::Nick(s) => Config { nick: s, ..self },
            FieldChange::Channel(s) => Config { channel: s, ..self },
            FieldChange::GameSystemId(s) => Config { game_system_id: s, ..self },
        }
    }

    /// The settings a session starts with.
    pub open spec fn is_default(self) -> bool {
        &&& self.name@ == "Default"@
        &&& self.hostname@ == "irc.trpg.net"@
        &&& self.port == 6667
        &&& !self.use_password
        &&& self.password@ == ""@
        &&& self.encoding@ == "UTF-8"@
        &&& self.nick@ == "BCDice"@
        &&& self.channel@ == "Dice_Test"@
        &&& self.game_system_id@ == "DiceBot"@
    }

    /// A copy of every setting, independent of `self`.
    pub fn copy(&self) -> (r: Config)
        ensures
            r == *self,
    {
        Config {
            name: self.name.clone(),
            hostname: self.hostname.clone(),
            port: self.port,
            use_password: self.use_password,
            password: self.password.clone(),
            encoding: self.encoding.clone(),
            nick: self.nick.clone(),
            channel: self.channel.clone(),
            game_system_id: self.game_system_id.clone(),
        }
    }
}

impl Default for Config {
    fn default() -> (r: Config)
        ensures
            r.is_default(),
    {
        Config {
            name: "Default".to_owned(),
            hostname: "irc.trpg.net".to_owned(),
            port: 6667,
            use_password: false,
            password: "".to_owned(),
            encoding: "UTF-8".to_owned(),
            nick: "BCDice".to_owned(),
            channel: "Dice_Test".to_owned(),
            game_system_id: "DiceBot".to_owned(),
        }
    }
}

/// The settings after applying `changes` to `c`, first to last.
pub open spec fn apply_all(c: Config, changes: Seq<FieldChange>) -> Config
    decreases changes.len(),
{
    if changes.len() == 0 {
        c
    } else {
        apply_all(c, changes.drop_last()).with_change(changes.last())
    }
}

/// The value of the last change in `changes` that names `f`, or what `c`
/// holds for `f` where none does.
pub open spec fn last_written(c: Config, changes: Seq<FieldChange>, f: Field) -> FieldValue
    decreases changes.len(),
{
    if changes.len() == 0 {
        c.get(f)
    } else if changes.last().field() == f {
        changes.last().value()
    } else {
        last_written(c, changes.drop_last(), f)
    }
}

/// A change writes its own setting and leaves every other one as it was.
pub proof fn lemma_change_writes_one_field(c: Config, ch: FieldChange, f: Field)
    ensures
        c.with_change(ch).get(f) == (if ch.field() == f { ch.value() } else { c.get(f) }),
{
}

/// Writing the same change twice is writing it once.
pub proof fn lemma_set_idempotent(c: Config, ch: FieldChange)
    ensures
        c.with_change(ch).with_change(ch) == c.with_change(ch),
{
}

/// Whatever the order in which changes to different settings come, each
/// setting ends with the value of the last change that names it, and a
/// setting that no change names keeps its value.
pub proof fn lemma_last_write_wins(c: Config, changes: Seq<FieldChange>, f: Field)
    ensures
        apply_all(c, changes).get(f) == last_written(c, changes, f),
    decreases changes.len(),
{
    if changes.len() > 0 {
        lemma_last_write_wins(c, changes.drop_last(), f);
        lemma_change_writes_one_field(apply_all(c, changes.drop_last()), changes.last(), f);
    }
}

/// The single owner of the session's connection settings. Field callbacks
/// write one setting at a time through [`ConfigStore::set`]; work that
/// leaves the foreground thread takes a [`ConfigStore::snapshot`].
pub struct ConfigStore {
    config: Config,
}

impl ConfigStore {
    /// The settings the store holds now.
    pub closed spec fn current(&self) -> Config {
        self.config
    }

    /// A store holding the default settings.
    pub fn new() -> (r: ConfigStore)
        ensures
            r.current().is_default(),
    {
        ConfigStore { config: Config::default() }
    }

    /// Overwrites the one setting that `change` names.
    pub fn set(&mut self, change: FieldChange)
        ensures
            final(self).current() == old(self).current().with_change(change),
    {
        match change {
            FieldChange::Name(s) => self.config.name = s,
            FieldChange::Hostname(s) => self.config.hostname = s,
            FieldChange::Port(p) => self.config.port = p,
            FieldChange::UsePassword(b) => self.config.use_password = b,
            FieldChange::Password(s) => self.config.password = s,
            FieldChange::Encoding(s) => self.config.encoding = s,
            FieldChange::Nick(s) => self.config.nick = s,
            FieldChange::Channel(s) => self.config.channel = s,
            FieldChange::GameSystemId(s) => self.config.game_system_id = s,
        }
    }

    /// A copy of every setting, safe to hand to another thread.
    pub fn snapshot(&self) -> (r: Config)
        ensures
            r == self.current(),
    {
        self.config.copy()
    }
}

} // verus!
