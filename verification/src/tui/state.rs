use vstd::prelude::*;

verus! {

/// Whether the oven has been reached yet.
#[derive(Debug, Clone, Copy, PartialEq, Eq, Structural)]
pub enum AppState {
    Connecting,
    Running,
}

/// Manual control of the setpoints, or the heating curve driving them.
#[derive(Debug, Clone, Copy, PartialEq, Eq, Structural)]
pub enum AppMode {
    Manual,
    Auto,
}

/// The other mode.
pub open spec fn mode_toggled(m: AppMode) -> AppMode {
    match m {
        AppMode::Manual => AppMode::Auto,
        AppMode::Auto => AppMode::Manual,
    }
}

impl AppMode {
    /// Switches between manual and automatic mode.
    pub fn toggle(self) -> (r: Self)
        ensures
            r == mode_toggled(self),
            r != self,
    {
        match self {
            AppMode::Manual => AppMode::Auto,
            AppMode::Auto => AppMode::Manual,
        }
    }
}

/// The setpoint tile that manual keys act on.
#[derive(Debug, Clone, Copy, PartialEq, Eq, Structural)]
pub enum ManualFocus {
    Temp,
    Flap,
    Fan,
}

/// Position of a tile in the cycle Temp, Flap, Fan.
pub open spec fn focus_index(f: ManualFocus) -> int {
    match f {
        ManualFocus::Temp => 0,
        ManualFocus::Flap => 1,
        ManualFocus::Fan => 2,
    }
}

/// The tile at a position of the cycle, taken modulo three.
pub open spec fn focus_at(i: int) -> ManualFocus {
    let k = i % 3;
    if k == 0 {
        ManualFocus::Temp
    } else if k == 1 {
        ManualFocus::Flap
    } else {
        ManualFocus::Fan
    }
}

impl ManualFocus {
    /// The next tile of the cycle Temp, Flap, Fan, Temp.
    pub fn next(self) -> (r: Self)
        ensures
            r == focus_at(focus_index(self) + 1),
    {
        match self {
            ManualFocus::Temp => ManualFocus::Flap,
            ManualFocus::Flap => ManualFocus::Fan,
            ManualFocus::Fan => ManualFocus::Temp,
        }
    }

    /// The previous tile of the cycle Temp, Flap, Fan, Temp.
    pub fn prev(self) -> (r: Self)
        ensures
            r == focus_at(focus_index(self) + 2),
    {
        match self {
            ManualFocus::Temp => ManualFocus::Fan,
            ManualFocus::Flap => ManualFocus::Temp,
            ManualFocus::Fan => ManualFocus::Flap,
        }
    }
}

/// What the right half of the screen shows.
#[derive(Debug, Clone, Copy, PartialEq, Eq, Structural)]
pub enum RightView {
    Curve,
    LiveGraph,
}

/// Whether a value is being typed into the number entry box.
#[derive(Debug, Clone, Copy, PartialEq, Eq, Structural)]
pub enum InputState {
    Normal,
    Editing,
}

/// Toggling the mode twice gives the mode back.
pub proof fn lemma_mode_toggle_involution(m: AppMode)
    ensures
        mode_toggled(mode_toggled(m)) == m,
        mode_toggled(m) != m,
{
}

/// Stepping the focus forward and then back (or back and then forward)
/// returns to the same tile, and three forward steps go round the cycle.
pub proof fn lemma_focus_cycle(f: ManualFocus)
    ensures
        focus_at(focus_index(focus_at(focus_index(f) + 1)) + 2) == f,
        focus_at(focus_index(focus_at(focus_index(f) + 2)) + 1) == f,
        focus_at(focus_index(focus_at(focus_index(focus_at(focus_index(f) + 1)) + 1)) + 1) == f,
        focus_at(focus_index(f)) == f,
{
}

} // verus!
