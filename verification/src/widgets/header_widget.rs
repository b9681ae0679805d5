use vstd::prelude::*;

use crate::tui::state::AppMode;

verus! {

/// The banner at the top: mode, oven address and whether it answers.
pub struct HeaderWidget<'a> {
    pub mode: AppMode,
    pub online: bool,
    pub oven_ip: &'a str,
}

impl<'a> HeaderWidget<'a> {
    /// The banner for mode `mode` and the oven at `oven_ip`.
    pub fn new(mode: AppMode, online: bool, oven_ip: &'a str) -> (w: Self)
        ensures
            w.mode == mode,
            w.online == online,
            w.oven_ip@ == oven_ip@,
    {
        HeaderWidget { mode, online, oven_ip }
    }
}

} // verus!
