//! The text of the version display.

use vstd::prelude::*;
use vstd::string::StringExecFns;

verus! {

/// The display before any report: the panel's own version.
pub open spec fn gui_label(gui: Seq<char>) -> Seq<char> {
    "BCDice IRC GUI v"@ + gui
}

/// The display after a report: the panel's version, then the bridge's,
/// then the bot's.
pub open spec fn full_label(gui: Seq<char>, bcdice_irc: Seq<char>, bcdice: Seq<char>) -> Seq<char> {
    "BCDice IRC GUI v"@ + gui + ", BCDice IRC v"@ + bcdice_irc + ", BCDice v"@ + bcdice
}

/// Text of the version display before any report came in.
pub fn gui_version_text(gui: &str) -> (r: String)
    ensures
        r@ == gui_label(gui@),
{
    let mut r = String::from_str("BCDice IRC GUI v");
    r.append(gui);
    r
}

/// Text of the version display once the service reported its versions.
pub fn version_text(gui: &str, bcdice_irc: &str, bcdice: &str) -> (r: String)
    ensures
        r@ == full_label(gui@, bcdice_irc@, bcdice@),
{
    let mut r = String::from_str("BCDice IRC GUI v");
    r.append(gui);
    r.append(", BCDice IRC v");
    r.append(bcdice_irc);
    r.append(", BCDice v");
    r.append(bcdice);
    r
}

} // verus!
