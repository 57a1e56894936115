//! The user-adjustable configuration of a run.
use vstd::prelude::*;

verus! {

/// Selects a one-dimensional automaton rule by number.
#[derive(Clone, Copy, Debug, PartialEq, Eq, Structural)]
pub struct CellularAutomata1d(pub u8);

/// Configuration read at (re)initialisation and by the on-screen menu.
#[derive(Clone, Copy, Debug, PartialEq, Eq, Structural)]
pub struct Settings {
    pub show_menu: bool,
    pub width: u32,
    pub height: u32,
    pub steps_per_sec: u32,
    pub ca_1d: CellularAutomata1d,
}

impl Default for Settings {
    /// A visible menu, a 1920 by 1080 field, sixty steps a second, rule 0.
    fn default() -> (r: Self)
        ensures
            r.show_menu,
            r.width == 1920,
            r.height == 1080,
            r.steps_per_sec == 60,
            r.ca_1d == CellularAutomata1d(0),
    {
        Settings {
            show_menu: true,
            width: 1920,
            height: 1080,
            steps_per_sec: 60,
            ca_1d: CellularAutomata1d(0),
        }
    }
}

} // verus!
