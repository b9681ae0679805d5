use vstd::prelude::*;

use crate::tui::app::Setpoint;
use crate::tui::handler::{KeyCode, KeyEvent, KeyEventKind};
use crate::widgets::control_widget::{
    ControlView, ControlWidget, control_decreased, control_increased, control_selected,
};

verus! {

/// Milliseconds between two refreshes of the plain three-tile controller.
pub const REFRESH_INTERVAL_MS: u128 = 50;

/// A refresh is due once `since_last_ms` milliseconds have passed since the
/// last one.
pub fn refresh_due(since_last_ms: u128) -> (r: bool)
    ensures
        r == (since_last_ms >= REFRESH_INTERVAL_MS),
{
    since_last_ms >= REFRESH_INTERVAL_MS
}

/// The tile that the keys act on in the plain three-tile controller.
#[derive(Debug, Clone, Copy, PartialEq, Eq, Structural)]
pub enum Focus {
    Temp,
    Flap,
    Fan,
}

/// Position of a tile in the cycle Temp, Flap, Fan.
pub open spec fn focus_pos(f: Focus) -> int {
    match f {
        Focus::Temp => 0,
        Focus::Flap => 1,
        Focus::Fan => 2,
    }
}

/// The tile at a position of the cycle, taken modulo three.
pub open spec fn focus_of(i: int) -> Focus {
    let k = i % 3;
    if k == 0 {
        Focus::Temp
    } else if k == 1 {
        Focus::Flap
    } else {
        Focus::Fan
    }
}

impl Focus {
    /// The next tile of the cycle Temp, Flap, Fan, Temp.
    pub fn next(self) -> (r: Self)
        ensures
            r == focus_of(focus_pos(self) + 1),
    {
        match self {
            Focus::Temp => Focus::Flap,
            Focus::Flap => Focus::Fan,
            Focus::Fan => Focus::Temp,
        }
    }

    /// The previous tile of the cycle Temp, Flap, Fan, Temp.
    pub fn prev(self) -> (r: Self)
        ensures
            r == focus_of(focus_pos(self) + 2),
    {
        match self {
            Focus::Temp => Focus::Fan,
            Focus::Flap => Focus::Temp,
            Focus::Fan => Focus::Flap,
        }
    }
}

/// The plain three-tile controller: temperature, flap and fan tiles, the
/// focused tile, a status line and whether the oven answers. The oven
/// connection and the refresh clock live with the caller.
pub struct App {
    pub oven_ip: String,
    pub exit: bool,
    pub temp: ControlWidget,
    pub flap: ControlWidget,
    pub fan: ControlWidget,
    pub focus: Focus,
    pub status: String,
    pub online: bool,
}

/// The plain values an [`App`] holds.
pub struct AppView {
    pub oven_ip: Seq<char>,
    pub exit: bool,
    pub temp: ControlView,
    pub flap: ControlView,
    pub fan: ControlView,
    pub focus: Focus,
    pub status: Seq<char>,
    pub online: bool,
}

impl View for App {
    type V = AppView;

    open spec fn view(&self) -> AppView {
        AppView {
            oven_ip: self.oven_ip@,
            exit: self.exit,
            temp: self.temp@,
            flap: self.flap@,
            fan: self.fan@,
            focus: self.focus,
            status: self.status@,
            online: self.online,
        }
    }
}

/// The focused tile.
pub open spec fn focused(a: AppView) -> ControlView {
    match a.focus {
        Focus::Temp => a.temp,
        Focus::Flap => a.flap,
        Focus::Fan => a.fan,
    }
}

/// The state with the focused tile replaced by `c`.
pub open spec fn with_focused(a: AppView, c: ControlView) -> AppView {
    match a.focus {
        Focus::Temp => AppView { temp: c, ..a },
        Focus::Flap => AppView { flap: c, ..a },
        Focus::Fan => AppView { fan: c, ..a },
    }
}

/// The state after moving the focus to `f`: the old tile loses its
/// highlight, the new one gets it.
pub open spec fn focus_moved(a: AppView, f: Focus) -> AppView {
    let b = with_focused(a, control_selected(focused(a), false));
    let c = AppView { focus: f, ..b };
    with_focused(c, control_selected(focused(c), true))
}

/// What the caller still has to do after a key.
#[derive(Debug, Clone, Copy, PartialEq, Eq, Structural)]
pub enum KeyOutcome {
    /// Nothing more.
    Done,
    /// Write the focused tile's value to the oven and refresh.
    SendCurrentValue,
}

/// The state and outcome after a key event: only presses count; q quits,
/// Tab and Shift-Tab move the focus, Up and Down step the focused tile,
/// Enter asks for its value to be sent.
pub open spec fn key_step(a: AppView, key: KeyEvent) -> (AppView, KeyOutcome) {
    if key.kind != KeyEventKind::Press {
        (a, KeyOutcome::Done)
    } else {
        match key.code {
            KeyCode::Char(c) => if c == 'q' {
                (AppView { exit: true, ..a }, KeyOutcome::Done)
            } else {
                (a, KeyOutcome::Done)
            },
            KeyCode::Tab => (focus_moved(a, focus_of(focus_pos(a.focus) + 1)), KeyOutcome::Done),
            KeyCode::BackTab => (focus_moved(a, focus_of(focus_pos(a.focus) + 2)), KeyOutcome::Done),
            KeyCode::Up => (with_focused(a, control_increased(focused(a))), KeyOutcome::Done),
            KeyCode::Down => (with_focused(a, control_decreased(focused(a))), KeyOutcome::Done),
            KeyCode::Enter => (a, KeyOutcome::SendCurrentValue),
            _ => (a, KeyOutcome::Done),
        }
    }
}

/// What "send" writes: the focused tile's edited value.
pub open spec fn send_request_of(a: AppView) -> Setpoint {
    match a.focus {
        Focus::Temp => Setpoint::Temp(a.temp.value),
        Focus::Flap => Setpoint::Flap(a.flap.value),
        Focus::Fan => Setpoint::Fan(a.fan.value),
    }
}

impl App {
    /// The controller for the oven at `oven_ip`: temperature tile (5 to 35
    /// degrees, step 0.5, starting at 21) focused and highlighted, flap and
    /// fan tiles (0 to 100 percent, step 5, starting at 0), status "Bereit",
    /// offline.
    pub fn new(oven_ip: String) -> (r: Self)
        ensures
            r@ == (AppView {
                oven_ip: oven_ip@,
                exit: false,
                temp: ControlView {
                    title: "Solltemperatur"@,
                    current: 21_000,
                    value: 21_000,
                    applied_value: 21_000,
                    unit: "°C"@,
                    step: 500,
                    min: 5_000,
                    max: 35_000,
                    selected: true,
                    locked: false,
                },
                flap: ControlView {
                    title: "Klappe"@,
                    current: 0,
                    value: 0,
                    applied_value: 0,
                    unit: "%"@,
                    step: 5_000,
                    min: 0,
                    max: 100_000,
                    selected: false,
                    locked: false,
                },
                fan: ControlView {
                    title: "Lüfter"@,
                    current: 0,
                    value: 0,
                    applied_value: 0,
                    unit: "%"@,
                    step: 5_000,
                    min: 0,
                    max: 100_000,
                    selected: false,
                    locked: false,
                },
                focus: Focus::Temp,
                status: "Bereit"@,
                online: false,
            }),
    {
        let mut temp = ControlWidget::new("Solltemperatur", 21_000, "°C", 500, 5_000, 35_000);
        temp.select();
        App {
            oven_ip,
            exit: false,
            temp,
            flap: ControlWidget::new("Klappe", 0, "%", 5_000, 0, 100_000),
            fan: ControlWidget::new("Lüfter", 0, "%", 5_000, 0, 100_000),
            focus: Focus::Temp,
            status: String::from_str("Bereit"),
            online: false,
        }
    }

    /// Handles one key event (see [`key_step`]).
    pub fn handle_key(&mut self, key: KeyEvent) -> (r: KeyOutcome)
        ensures
            final(self)@ == key_step(old(self)@, key).0,
            r == key_step(old(self)@, key).1,
    {
        if key.kind != KeyEventKind::Press {
            return KeyOutcome::Done;
        }
        match key.code {
            KeyCode::Char('q') => self.exit = true,
            KeyCode::Tab => {
                let f = self.focus.next();
                self.change_focus(f);
            },
            KeyCode::BackTab => {
                let f = self.focus.prev();
                self.change_focus(f);
            },
            KeyCode::Up => self.focused_widget_mut().increase(),
            KeyCode::Down => self.focused_widget_mut().decrease(),
            KeyCode::Enter => {
                return KeyOutcome::SendCurrentValue;
            },
            _ => {},
        }
        KeyOutcome::Done
    }

    /// Moves the focus, and the highlight with it, to `new_focus`.
    pub fn change_focus(&mut self, new_focus: Focus)
        ensures
            final(self)@ == focus_moved(old(self)@, new_focus),
    {
        self.focused_widget_mut().deselect();
        self.focus = new_focus;
        self.focused_widget_mut().select();
    }

    /// The focused tile, to be changed in place.
    pub fn focused_widget_mut(&mut self) -> (r: &mut ControlWidget)
        ensures
            (*r)@ == focused(old(self)@),
            final(self)@ == with_focused(old(self)@, (*final(r))@),
    {
        match self.focus {
            Focus::Temp => &mut self.temp,
            Focus::Flap => &mut self.flap,
            Focus::Fan => &mut self.fan,
        }
    }

    /// What "send" writes (see [`send_request_of`]).
    pub fn send_request(&self) -> (r: Setpoint)
        ensures
            r == send_request_of(self@),
    {
        match self.focus {
            Focus::Temp => Setpoint::Temp(self.temp.value),
            Focus::Flap => Setpoint::Flap(self.flap.value),
            Focus::Fan => Setpoint::Fan(self.fan.value),
        }
    }

    /// Takes in the readings of one refresh: the online flag, and each
    /// read-back value that arrived.
    pub fn apply_readings(&mut self, online: bool, temp: Option<i64>, flap: Option<i64>, fan: Option<i64>)
        ensures
            final(self)@ == (AppView {
                online,
                temp: match temp {
                    Some(v) => ControlView { current: v, ..old(self)@.temp },
                    None => old(self)@.temp,
                },
                flap: match flap {
                    Some(v) => ControlView { current: v, ..old(self)@.flap },
                    None => old(self)@.flap,
                },
                fan: match fan {
                    Some(v) => ControlView { current: v, ..old(self)@.fan },
                    None => old(self)@.fan,
                },
                ..old(self)@
            }),
    {
        self.online = online;
        if let Some(v) = temp {
            self.temp.set_current(v);
        }
        if let Some(v) = flap {
            self.flap.set_current(v);
        }
        if let Some(v) = fan {
            self.fan.set_current(v);
        }
    }

    /// Replaces the status line.
    pub fn set_status(&mut self, status: String)
        ensures
            final(self)@ == (AppView { status: status@, ..old(self)@ }),
    {
        self.status = status;
    }
}

/// Exactly the focused tile is highlighted.
pub open spec fn highlight_follows_focus(a: AppView) -> bool {
    &&& a.temp.selected == (a.focus == Focus::Temp)
    &&& a.flap.selected == (a.focus == Focus::Flap)
    &&& a.fan.selected == (a.focus == Focus::Fan)
}

/// Every key keeps exactly the focused tile highlighted, and Tab followed by
/// Shift-Tab returns to the tile it started from.
pub proof fn lemma_keys_keep_highlight(a: AppView, key: KeyEvent)
    requires
        highlight_follows_focus(a),
    ensures
        highlight_follows_focus(key_step(a, key).0),
        focus_of(focus_pos(focus_of(focus_pos(a.focus) + 1)) + 2) == a.focus,
{
}

} // verus!
