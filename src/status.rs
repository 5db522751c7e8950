//! The contexts under which status messages are posted, so that messages of
//! different producers sharing one status bar do not replace each other.

use vstd::prelude::*;

verus! {

/// What a status message is about.
#[derive(Debug, Clone, Copy, PartialEq, Eq, Structural)]
pub enum StatusCategory {
    PresetLoad,
    SavePresets,
    GameSystemChange,
    Connection,
}

/// The description under which the status bar hands out the context of `c`.
pub open spec fn context_name_of(c: StatusCategory) -> Seq<char> {
    match c {
        StatusCategory::PresetLoad => "preset_load"@,
        StatusCategory::SavePresets => "save_presets"@,
        StatusCategory::GameSystemChange => "game_system_change"@,
        StatusCategory::Connection => "connection"@,
    }
}

/// The description under which the status bar hands out the context of `c`.
pub fn context_name(c: StatusCategory) -> (r: &'static str)
    ensures
        r@ == context_name_of(c),
{
    match c {
        StatusCategory::PresetLoad => "preset_load",
        StatusCategory::SavePresets => "save_presets",
        StatusCategory::GameSystemChange => "game_system_change",
        StatusCategory::Connection => "connection",
    }
}

/// The context identifier of each category, obtained once and fixed after.
#[derive(Debug)]
pub struct StatusBarContextIDSet {
    preset_load: u32,
    save_presets: u32,
    game_system_change: u32,
    connection: u32,
}

impl StatusBarContextIDSet {
    /// The identifier of category `c`.
    pub closed spec fn spec_id(&self, c: StatusCategory) -> u32 {
        match c {
            StatusCategory::PresetLoad => self.preset_load,
            StatusCategory::SavePresets => self.save_presets,
            StatusCategory::GameSystemChange => self.game_system_change,
            StatusCategory::Connection => self.connection,
        }
    }

    /// The set that gives each category the identifier that `lookup` has
    /// for it, in the order of [`StatusCategory`].
    pub fn new(lookup: [u32; 4]) -> (r: Self)
        ensures
            r.spec_id(StatusCategory::PresetLoad) == lookup[0],
            r.spec_id(StatusCategory::SavePresets) == lookup[1],
            r.spec_id(StatusCategory::GameSystemChange) == lookup[2],
            r.spec_id(StatusCategory::Connection) == lookup[3],
    {
        StatusBarContextIDSet {
            preset_load: lookup[0],
            save_presets: lookup[1],
            game_system_change: lookup[2],
            connection: lookup[3],
        }
    }

    /// The identifier under which messages of category `c` are posted.
    pub fn id(&self, c: StatusCategory) -> (r: u32)
        ensures
            r == self.spec_id(c),
    {
        match c {
            StatusCategory::PresetLoad => self.preset_load,
            StatusCategory::SavePresets => self.save_presets,
            StatusCategory::GameSystemChange => self.game_system_change,
            StatusCategory::Connection => self.connection,
        }
    }
}

} // verus!
