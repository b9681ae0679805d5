use vstd::prelude::*;

use crate::tui::state::{AppMode, InputState};

verus! {

/// The key help line at the bottom.
pub struct FooterWidget<'a> {
    pub mode: AppMode,
    pub input_state: &'a InputState,
}

impl<'a> FooterWidget<'a> {
    /// The help line for mode `mode` and entry state `input_state`.
    pub fn new(mode: AppMode, input_state: &'a InputState) -> (w: Self)
        ensures
            w.mode == mode,
            *w.input_state == *input_state,
    {
        FooterWidget { mode, input_state }
    }
}

} // verus!
