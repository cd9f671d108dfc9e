//! Verified core of a free camera and camera path tool for FromSoftware games.
//!
//! The library holds the decision logic of the tool: key bindings, input state,
//! the control state machines of the in-game agent and of the control panel,
//! settings migration, offsets lookup and the small tables the tool relies on.
//! Everything that touches the game process, the operating system, the GUI or
//! floating point arithmetic lives in the application around it.
use vstd::prelude::*;
use vstd::string::*;

pub mod agent;
pub mod game;
pub mod gamespeed;
pub mod input;
pub mod keybind;
pub mod panel;
pub mod path;
pub mod player;
pub mod process;
pub mod protocol;
pub mod settings;
pub mod text;
pub mod timeline;

verus! {

/// Title of the control panel for a release of the tool.
pub open spec fn title_of(version: Seq<char>) -> Seq<char> {
    "Freecam+ v"@ + version
}

/// Title of the control panel for the given release version.
pub fn program_title(version: &str) -> (title: String)
    ensures
        title@ == title_of(version@),
{
    let mut title = String::from_str("Freecam+ v");
    title.append(version);
    title
}

} // verus!
