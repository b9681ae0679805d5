use vstd::prelude::*;

use crate::tui::state::{
    AppMode, AppState, InputState, ManualFocus, RightView, mode_toggled,
};
use crate::widgets::control_widget::{
    ControlView, ControlWidget, control_locked, control_selected, control_targeted,
};
use crate::widgets::curve_widget::{
    CurveView, CurveWidget, RunnerStatus, curve_tile, default_curve, polled,
};
use crate::widgets::graph_widget::{GraphView, GraphWidget, graph_pushed};

verus! {

/// Milliseconds between two refreshes from the oven.
pub const REFRESH_INTERVAL_MS: u128 = 2000;

/// A refresh is due once `since_last_ms` milliseconds have passed since the
/// last one.
pub fn refresh_due(since_last_ms: u128) -> (r: bool)
    ensures
        r == (since_last_ms >= REFRESH_INTERVAL_MS),
{
    since_last_ms >= REFRESH_INTERVAL_MS
}

/// The state the terminal controller runs on: connection state, mode, focus,
/// the three setpoint tiles, the heating-curve editor and the live history.
/// The oven connection and the entry box's text live with the caller.
pub struct App {
    pub oven_ip: String,
    pub exit: bool,
    pub state: AppState,
    pub connect_status: String,
    pub spinner_tick: u64,
    pub mode: AppMode,
    pub manual_focus: ManualFocus,
    pub input_state: InputState,
    pub right_view: RightView,
    pub online: bool,
    pub temp: ControlWidget,
    pub flap: ControlWidget,
    pub fan: ControlWidget,
    pub curve: CurveWidget,
    pub graph: GraphWidget,
}

/// The plain values an [`App`] holds.
pub struct AppView {
    pub oven_ip: Seq<char>,
    pub exit: bool,
    pub state: AppState,
    pub connect_status: Seq<char>,
    pub spinner_tick: u64,
    pub mode: AppMode,
    pub manual_focus: ManualFocus,
    pub input_state: InputState,
    pub right_view: RightView,
    pub online: bool,
    pub temp: ControlView,
    pub flap: ControlView,
    pub fan: ControlView,
    pub curve: CurveView,
    pub graph: GraphView,
}

impl View for App {
    type V = AppView;

    open spec fn view(&self) -> AppView {
        AppView {
            oven_ip: self.oven_ip@,
            exit: self.exit,
            state: self.state,
            connect_status: self.connect_status@,
            spinner_tick: self.spinner_tick,
            mode: self.mode,
            manual_focus: self.manual_focus,
            input_state: self.input_state,
            right_view: self.right_view,
            online: self.online,
            temp: self.temp@,
            flap: self.flap@,
            fan: self.fan@,
            curve: self.curve@,
            graph: self.graph@,
        }
    }
}

/// The tiles' and the curve's limits are ordered, so values can be held to
/// them.
pub open spec fn limits_ordered(a: AppView) -> bool {
    &&& a.temp.min <= a.temp.max
    &&& a.flap.min <= a.flap.max
    &&& a.fan.min <= a.fan.max
    &&& a.curve.min_temp <= a.curve.max_temp
}

/// The selected curve point can be deleted: the curve is kept whole at two
/// points or fewer, and otherwise the selection is on it.
pub open spec fn curve_deletable(a: AppView) -> bool {
    a.curve.points.len() <= 2 || a.curve.selected < a.curve.points.len()
}

/// The limits are ordered and the curve's selection can be deleted.
pub open spec fn app_wf(a: AppView) -> bool {
    limits_ordered(a) && curve_deletable(a)
}

/// The tiles are highlighted as the mode says: in manual mode all are
/// unlocked and exactly the focused one is highlighted; in automatic mode
/// all are locked and none is highlighted.
pub open spec fn tiles_match_mode(a: AppView) -> bool {
    match a.mode {
        AppMode::Manual => {
            &&& !a.temp.locked && !a.flap.locked && !a.fan.locked
            &&& a.temp.selected == (a.manual_focus == ManualFocus::Temp)
            &&& a.flap.selected == (a.manual_focus == ManualFocus::Flap)
            &&& a.fan.selected == (a.manual_focus == ManualFocus::Fan)
        },
        AppMode::Auto => {
            &&& a.temp.locked && a.flap.locked && a.fan.locked
            &&& !a.temp.selected && !a.flap.selected && !a.fan.selected
        },
    }
}

/// The tile that manual keys act on.
pub open spec fn focused_tile(a: AppView) -> ControlView {
    match a.manual_focus {
        ManualFocus::Temp => a.temp,
        ManualFocus::Flap => a.flap,
        ManualFocus::Fan => a.fan,
    }
}

/// The state with the focused tile replaced by `c`.
pub open spec fn with_focused_tile(a: AppView, c: ControlView) -> AppView {
    match a.manual_focus {
        ManualFocus::Temp => AppView { temp: c, ..a },
        ManualFocus::Flap => AppView { flap: c, ..a },
        ManualFocus::Fan => AppView { fan: c, ..a },
    }
}

/// Highlights exactly the focused tile.
pub open spec fn focus_applied(a: AppView) -> AppView {
    AppView {
        temp: control_selected(a.temp, a.manual_focus == ManualFocus::Temp),
        flap: control_selected(a.flap, a.manual_focus == ManualFocus::Flap),
        fan: control_selected(a.fan, a.manual_focus == ManualFocus::Fan),
        ..a
    }
}

/// The state after switching to mode `m`: manual mode unlocks the tiles,
/// drops the curve highlight, shows the live graph and highlights the
/// focused tile; automatic mode locks the tiles, highlights the curve and
/// shows it.
pub open spec fn mode_set(a: AppView, m: AppMode) -> AppView {
    match m {
        AppMode::Manual => focus_applied(
            AppView {
                mode: m,
                temp: control_locked(a.temp, false),
                flap: control_locked(a.flap, false),
                fan: control_locked(a.fan, false),
                curve: curve_tile(a.curve, false),
                right_view: RightView::LiveGraph,
                ..a
            },
        ),
        AppMode::Auto => AppView {
            mode: m,
            temp: control_locked(a.temp, true),
            flap: control_locked(a.flap, true),
            fan: control_locked(a.fan, true),
            curve: curve_tile(a.curve, true),
            right_view: RightView::Curve,
            ..a
        },
    }
}

/// The other right-hand view.
pub open spec fn right_view_toggled(v: RightView) -> RightView {
    match v {
        RightView::Curve => RightView::LiveGraph,
        RightView::LiveGraph => RightView::Curve,
    }
}

/// The state after focusing tile `f` in manual mode.
pub open spec fn focus_changed(a: AppView, f: ManualFocus) -> AppView {
    focus_applied(AppView { manual_focus: f, ..a })
}

/// A value to be written to the oven.
#[derive(Debug, Clone, Copy, PartialEq, Eq, Structural)]
pub enum Setpoint {
    Temp(i64),
    Flap(i64),
    Fan(i64),
}

/// What "send" writes to the oven: the focused tile's edited value, in
/// manual mode only.
pub open spec fn send_request_of(a: AppView) -> Option<Setpoint> {
    match a.mode {
        AppMode::Manual => Some(
            match a.manual_focus {
                ManualFocus::Temp => Setpoint::Temp(a.temp.value),
                ManualFocus::Flap => Setpoint::Flap(a.flap.value),
                ManualFocus::Fan => Setpoint::Fan(a.fan.value),
            },
        ),
        AppMode::Auto => None,
    }
}

/// The state after the readings of one refresh: the online flag, and each
/// read-back value that arrived.
pub open spec fn readings_applied(
    a: AppView,
    online: bool,
    temp: Option<i64>,
    flap: Option<i64>,
    fan: Option<i64>,
) -> AppView {
    AppView {
        online,
        temp: match temp {
            Some(v) => ControlView { current: v, ..a.temp },
            None => a.temp,
        },
        flap: match flap {
            Some(v) => ControlView { current: v, ..a.flap },
            None => a.flap,
        },
        fan: match fan {
            Some(v) => ControlView { current: v, ..a.fan },
            None => a.fan,
        },
        ..a
    }
}

/// The state and the temperature to send after one automatic step, when the
/// runner's running leg has run `since_start` nanoseconds: in automatic mode
/// the curve is polled and a target it yields is set on the temperature tile
/// (within its limits); manual mode changes nothing.
pub open spec fn auto_stepped(a: AppView, since_start: u128) -> (AppView, Option<i64>) {
    match a.mode {
        AppMode::Manual => (a, None),
        AppMode::Auto => {
            let (c, r) = polled(a.curve, since_start);
            match r {
                Some(t) => (AppView { curve: c, temp: control_targeted(a.temp, t as int), ..a }, r),
                None => (AppView { curve: c, ..a }, None),
            }
        },
    }
}

/// The message shown while the oven cannot be reached.
pub open spec fn unreachable_message(ip: Seq<char>) -> Seq<char> {
    "Oven unreachable at "@ + ip + ". Waiting for connection..."@
}

impl App {
    /// The controller for the oven at `oven_ip`: connecting, manual mode,
    /// temperature tile focused, live graph shown; tiles for temperature
    /// (20 to 300 degrees, step 0.5, starting at 20), flap and fan (0 to 100
    /// percent, step 1, starting at 0); the default heating curve for 20 to
    /// 300 degrees; an empty history for 0 to 300 degrees.
    pub fn new(oven_ip: String) -> (r: Self)
        ensures
            r@.oven_ip == oven_ip@,
            !r.exit,
            r.state == AppState::Connecting,
            r.connect_status@ == Seq::<char>::empty(),
            r.spinner_tick == 0,
            r.mode == AppMode::Manual,
            r.manual_focus == ManualFocus::Temp,
            r.input_state == InputState::Normal,
            r.right_view == RightView::LiveGraph,
            !r.online,
            r.temp@ == (ControlView {
                title: "Temperature [0]"@,
                current: 20_000,
                value: 20_000,
                applied_value: 20_000,
                unit: "°C"@,
                step: 500,
                min: 20_000,
                max: 300_000,
                selected: true,
                locked: false,
            }),
            r.flap@ == (ControlView {
                title: "Flap [1]"@,
                current: 0,
                value: 0,
                applied_value: 0,
                unit: "%"@,
                step: 1000,
                min: 0,
                max: 100_000,
                selected: false,
                locked: false,
            }),
            r.fan@ == (ControlView {
                title: "Fan [2]"@,
                current: 0,
                value: 0,
                applied_value: 0,
                unit: "%"@,
                step: 1000,
                min: 0,
                max: 100_000,
                selected: false,
                locked: false,
            }),
            r.curve@.title == "Heating Curve"@,
            r.curve@.unit == "°C"@,
            r.curve.min_temp == 20_000,
            r.curve.max_temp == 300_000,
            r.curve@.points == default_curve(),
            r.curve.selected == 1,
            !r.curve.selected_tile,
            r.curve.runner.status == RunnerStatus::Idle,
            r.curve.runner.banked() == 0,
            !r.curve.runner.leg_started(),
            r.curve.temp_step == 5000,
            r.curve.time_step_min == 300_000_000_000,
            r.graph@ == (GraphView {
                title: "Live Temperature History"@,
                unit: "°C"@,
                min: 0,
                max: 300_000,
                current_history: Seq::empty(),
                target_history: Seq::empty(),
                next_x: 0,
            }),
            app_wf(r@),
            tiles_match_mode(r@),
    {
        let mut temp = ControlWidget::new("Temperature [0]", 20_000, "°C", 500, 20_000, 300_000);
        let flap = ControlWidget::new("Flap [1]", 0, "%", 1000, 0, 100_000);
        let fan = ControlWidget::new("Fan [2]", 0, "%", 1000, 0, 100_000);
        temp.select();
        App {
            oven_ip,
            exit: false,
            state: AppState::Connecting,
            connect_status: String::new(),
            spinner_tick: 0,
            mode: AppMode::Manual,
            manual_focus: ManualFocus::Temp,
            input_state: InputState::Normal,
            right_view: RightView::LiveGraph,
            online: false,
            temp,
            flap,
            fan,
            curve: CurveWidget::new("Heating Curve", "°C", 20_000, 300_000),
            graph: GraphWidget::new("Live Temperature History", "°C", 0, 300_000),
        }
    }

    /// Switches to the other mode.
    pub fn toggle_mode(&mut self)
        ensures
            final(self)@ == mode_set(old(self)@, mode_toggled(old(self).mode)),
    {
        let m = self.mode.toggle();
        self.set_mode(m);
    }

    /// Switches to mode `mode` (see [`mode_set`]).
    pub fn set_mode(&mut self, mode: AppMode)
        ensures
            final(self)@ == mode_set(old(self)@, mode),
    {
        self.mode = mode;
        match self.mode {
            AppMode::Manual => {
                self.temp.set_locked(false);
                self.flap.set_locked(false);
                self.fan.set_locked(false);
                self.curve.deselect();
                self.right_view = RightView::LiveGraph;
                self.apply_manual_focus();
            },
            AppMode::Auto => {
                self.temp.set_locked(true);
                self.flap.set_locked(true);
                self.fan.set_locked(true);
                self.curve.select();
                self.right_view = RightView::Curve;
            },
        }
    }

    /// Shows the other right-hand view.
    pub fn toggle_right_view(&mut self)
        ensures
            final(self)@ == (AppView { right_view: right_view_toggled(old(self).right_view), ..old(self)@ }),
    {
        self.right_view = match self.right_view {
            RightView::Curve => RightView::LiveGraph,
            RightView::LiveGraph => RightView::Curve,
        };
    }

    /// Focuses tile `new_focus` and highlights it alone.
    pub fn change_manual_focus(&mut self, new_focus: ManualFocus)
        ensures
            final(self)@ == focus_changed(old(self)@, new_focus),
    {
        self.manual_focus = new_focus;
        self.apply_manual_focus();
    }

    /// Highlights exactly the focused tile.
    fn apply_manual_focus(&mut self)
        ensures
            final(self)@ == focus_applied(old(self)@),
    {
        self.temp.deselect();
        self.flap.deselect();
        self.fan.deselect();
        match self.manual_focus {
            ManualFocus::Temp => self.temp.select(),
            ManualFocus::Flap => self.flap.select(),
            ManualFocus::Fan => self.fan.select(),
        }
    }

    /// The focused tile, to be changed in place.
    pub fn focused_control_mut(&mut self) -> (r: &mut ControlWidget)
        ensures
            (*r)@ == focused_tile(old(self)@),
            final(self)@ == with_focused_tile(old(self)@, (*final(r))@),
    {
        match self.manual_focus {
            ManualFocus::Temp => &mut self.temp,
            ManualFocus::Flap => &mut self.flap,
            ManualFocus::Fan => &mut self.fan,
        }
    }

    /// What "send" writes to the oven (see [`send_request_of`]).
    pub fn send_request(&self) -> (r: Option<Setpoint>)
        ensures
            r == send_request_of(self@),
    {
        match self.mode {
            AppMode::Manual => Some(
                match self.manual_focus {
                    ManualFocus::Temp => Setpoint::Temp(self.temp.value),
                    ManualFocus::Flap => Setpoint::Flap(self.flap.value),
                    ManualFocus::Fan => Setpoint::Fan(self.fan.value),
                },
            ),
            AppMode::Auto => None,
        }
    }

    /// Takes in the readings of one refresh (see [`readings_applied`]).
    pub fn apply_readings(&mut self, online: bool, temp: Option<i64>, flap: Option<i64>, fan: Option<i64>)
        ensures
            final(self)@ == readings_applied(old(self)@, online, temp, flap, fan),
    {
        self.online = online;
        if let Some(v) = temp {
            self.temp.set_current(v);
        }
        if let Some(v) = flap {
            self.flap.set_current(v);
        }
        if let Some(v) = fan {
            self.fan.set_current(v);
        }
    }

    /// In automatic mode, polls the curve runner as if its running leg had
    /// run `since_start` nanoseconds (see [`polled`]) and, when it yields a
    /// target temperature, sets the temperature tile to it (within its
    /// limits) and returns it for sending to the oven. Nothing happens in
    /// manual mode.
    pub fn auto_step_after(&mut self, since_start: u128) -> (r: Option<i64>)
        requires
            old(self).mode == AppMode::Auto ==> old(self).temp.min <= old(self).temp.max,
        ensures
            (final(self)@, r) == auto_stepped(old(self)@, since_start),
    {
        if self.mode == AppMode::Auto {
            if let Some(target_temp) = self.curve.poll_runner_after(since_start) {
                self.temp.set_target(target_temp);
                return Some(target_temp);
            }
        }
        None
    }

    /// [`App::auto_step_after`] with the running leg's length read from the
    /// clock.
    pub fn auto_step(&mut self) -> (r: Option<i64>)
        requires
            old(self).mode == AppMode::Auto ==> old(self).temp.min <= old(self).temp.max,
        ensures
            exists|since: u128| (final(self)@, r) == auto_stepped(old(self)@, since),
            old(self).mode == AppMode::Manual ==> r is None && final(self)@ == old(self)@,
    {
        let since = self.curve.runner.leg_nanos();
        self.auto_step_after(since)
    }

    /// Records the read-back temperature and the oven's set temperature in
    /// the live history.
    pub fn record_sample(&mut self, set_temp: i64)
        ensures
            final(self)@ == (AppView {
                graph: graph_pushed(old(self).graph@, old(self).temp.current, set_temp),
                ..old(self)@
            }),
    {
        let current = self.temp.current;
        self.graph.push_sample(current, set_temp);
    }

    /// Notes whether the oven answered: the first answer ends the connecting
    /// phase; while connecting and unanswered, the status tells so.
    pub fn update_connection(&mut self, online: bool)
        ensures
            final(self)@ == if old(self).state == AppState::Connecting {
                if online {
                    AppView { state: AppState::Running, ..old(self)@ }
                } else {
                    AppView { connect_status: unreachable_message(old(self)@.oven_ip), ..old(self)@ }
                }
            } else {
                old(self)@
            },
    {
        if self.state == AppState::Connecting {
            if online {
                self.state = AppState::Running;
            } else {
                let mut msg = String::from_str("Oven unreachable at ");
                msg.append(self.oven_ip.as_str());
                msg.append(". Waiting for connection...");
                self.connect_status = msg;
            }
        }
    }

    /// Advances the connecting spinner by one tick (wrapping).
    pub fn advance_spinner(&mut self)
        ensures
            final(self)@ == (AppView { spinner_tick: old(self).spinner_tick.wrapping_add(1), ..old(self)@ }),
    {
        self.spinner_tick = self.spinner_tick.wrapping_add(1);
    }
}

} // verus!
