use vstd::prelude::*;

use crate::tui::app::{
    App, AppView, Setpoint, app_wf, curve_deletable, focus_changed, focused_tile, mode_set, right_view_toggled,
    send_request_of, tiles_match_mode, with_focused_tile,
};
use crate::tui::state::{AppMode, InputState, ManualFocus, focus_at, focus_index, mode_toggled};
use crate::widgets::control_widget::{control_decreased, control_increased, control_targeted};
use crate::widgets::curve_widget::{
    CurveRunner, CurveView, CurveWidget, RunnerStatus, curve_added, curve_deleted, curve_next, curve_prev, curve_temp_down,
    curve_temp_set, curve_temp_up, curve_time_down, curve_time_up, toggled_status,
};
use crate::widgets::float_input_widget::FloatInput;

verus! {

/// The keys the controller tells apart.
#[derive(Debug, Clone, Copy, PartialEq, Eq, Structural)]
pub enum KeyCode {
    Char(char),
    Tab,
    BackTab,
    Up,
    Down,
    Left,
    Right,
    Enter,
    Insert,
    Delete,
    Esc,
    Other,
}

/// Whether a key went down, repeats or went up.
#[derive(Debug, Clone, Copy, PartialEq, Eq, Structural)]
pub enum KeyEventKind {
    Press,
    Repeat,
    Release,
}

/// One key event.
#[derive(Debug, Clone, Copy, PartialEq, Eq, Structural)]
pub struct KeyEvent {
    pub code: KeyCode,
    pub kind: KeyEventKind,
}

/// What the caller still has to do after a key.
#[derive(Debug, Clone, Copy, PartialEq, Eq, Structural)]
pub enum KeyOutcome {
    /// Nothing more.
    Done,
    /// Write the focused tile's value to the oven and refresh.
    SendCurrentValue,
    /// Open a fresh number entry box.
    OpenEntry,
    /// The number entry box is open: feed it the key.
    ToEntry,
}

/// What a key does to the curve runner.
#[derive(Debug, Clone, Copy, PartialEq, Eq, Structural)]
pub enum RunnerKey {
    Keep,
    Toggle,
    Stop,
}

/// The next tile of the cycle.
pub open spec fn focus_next(f: ManualFocus) -> ManualFocus {
    focus_at(focus_index(f) + 1)
}

/// The previous tile of the cycle.
pub open spec fn focus_prev(f: ManualFocus) -> ManualFocus {
    focus_at(focus_index(f) + 2)
}

/// A key in manual mode: Tab and Shift-Tab cycle the focus, 0/1/2 pick the
/// temperature, flap or fan tile, Up/Right/+ and Down/Left/- step the focused
/// tile, Enter asks for the value to be sent.
pub open spec fn manual_key_step(a: AppView, code: KeyCode) -> (AppView, KeyOutcome) {
    match code {
        KeyCode::Tab => (focus_changed(a, focus_next(a.manual_focus)), KeyOutcome::Done),
        KeyCode::BackTab => (focus_changed(a, focus_prev(a.manual_focus)), KeyOutcome::Done),
        KeyCode::Char(c) => if c == '0' {
            (focus_changed(a, ManualFocus::Temp), KeyOutcome::Done)
        } else if c == '1' {
            (focus_changed(a, ManualFocus::Flap), KeyOutcome::Done)
        } else if c == '2' {
            (focus_changed(a, ManualFocus::Fan), KeyOutcome::Done)
        } else if c == '+' {
            (with_focused_tile(a, control_increased(focused_tile(a))), KeyOutcome::Done)
        } else if c == '-' {
            (with_focused_tile(a, control_decreased(focused_tile(a))), KeyOutcome::Done)
        } else {
            (a, KeyOutcome::Done)
        },
        KeyCode::Up | KeyCode::Right => (
            with_focused_tile(a, control_increased(focused_tile(a))),
            KeyOutcome::Done,
        ),
        KeyCode::Down | KeyCode::Left => (
            with_focused_tile(a, control_decreased(focused_tile(a))),
            KeyOutcome::Done,
        ),
        KeyCode::Enter => (a, KeyOutcome::SendCurrentValue),
        _ => (a, KeyOutcome::Done),
    }
}

/// The curve editor after a key in automatic mode: Left/h and Right/l step
/// the selected point, Up/k and Down/j its temperature, +/] and -/[ the
/// segment before it, a/n/Insert add and d/x/Delete delete a point. The
/// runner keys (Space/r, s) leave the rest of the editor as it is.
pub open spec fn auto_curve_step(c: CurveView, code: KeyCode) -> CurveView {
    match code {
        KeyCode::Left => curve_prev(c),
        KeyCode::Right => curve_next(c),
        KeyCode::Up => curve_temp_up(c),
        KeyCode::Down => curve_temp_down(c),
        KeyCode::Insert => curve_added(c),
        KeyCode::Delete => curve_deleted(c),
        KeyCode::Char(ch) => if ch == 'h' {
            curve_prev(c)
        } else if ch == 'l' {
            curve_next(c)
        } else if ch == 'k' {
            curve_temp_up(c)
        } else if ch == 'j' {
            curve_temp_down(c)
        } else if ch == '+' || ch == ']' {
            curve_time_up(c)
        } else if ch == '-' || ch == '[' {
            curve_time_down(c)
        } else if ch == 'a' || ch == 'n' {
            curve_added(c)
        } else if ch == 'd' || ch == 'x' {
            curve_deleted(c)
        } else {
            c
        },
        _ => c,
    }
}

/// What a key in automatic mode does to the runner: Space and r toggle
/// run/pause, s stops.
pub open spec fn auto_runner_key(code: KeyCode) -> RunnerKey {
    match code {
        KeyCode::Char(ch) => if ch == ' ' || ch == 'r' {
            RunnerKey::Toggle
        } else if ch == 's' {
            RunnerKey::Stop
        } else {
            RunnerKey::Keep
        },
        _ => RunnerKey::Keep,
    }
}

/// The key is one of the global keys q, m, g, e.
pub open spec fn is_global_key(code: KeyCode) -> bool {
    code == KeyCode::Char('q') || code == KeyCode::Char('m') || code == KeyCode::Char('g')
        || code == KeyCode::Char('e')
}

/// The state (with the runner as it was) and the outcome after a key event:
/// only presses count; while the entry box is open the key goes there; q
/// quits, m switches mode, g switches the right-hand view, e opens the entry
/// box; other keys act by mode.
pub open spec fn key_step(a: AppView, key: KeyEvent) -> (AppView, KeyOutcome) {
    if key.kind != KeyEventKind::Press {
        (a, KeyOutcome::Done)
    } else if a.input_state == InputState::Editing {
        (a, KeyOutcome::ToEntry)
    } else if key.code == KeyCode::Char('q') {
        (AppView { exit: true, ..a }, KeyOutcome::Done)
    } else if key.code == KeyCode::Char('m') {
        (mode_set(a, mode_toggled(a.mode)), KeyOutcome::Done)
    } else if key.code == KeyCode::Char('g') {
        (AppView { right_view: right_view_toggled(a.right_view), ..a }, KeyOutcome::Done)
    } else if key.code == KeyCode::Char('e') {
        (AppView { input_state: InputState::Editing, ..a }, KeyOutcome::OpenEntry)
    } else {
        match a.mode {
            AppMode::Manual => manual_key_step(a, key.code),
            AppMode::Auto => (
                AppView { curve: auto_curve_step(a.curve, key.code), ..a },
                KeyOutcome::Done,
            ),
        }
    }
}

/// What the key event does to the runner.
pub open spec fn key_runner(a: AppView, key: KeyEvent) -> RunnerKey {
    if key.kind == KeyEventKind::Press && a.input_state == InputState::Normal && !is_global_key(
        key.code,
    ) && a.mode == AppMode::Auto {
        auto_runner_key(key.code)
    } else {
        RunnerKey::Keep
    }
}

/// The state with the curve runner replaced by that of `b`.
pub open spec fn with_runner_of(a: AppView, b: AppView) -> AppView {
    AppView { curve: CurveView { runner: b.curve.runner, ..a.curve }, ..a }
}

/// The runner went from that of `old` to that of `new` as `k` says.
pub open spec fn runner_moved(k: RunnerKey, old: AppView, new: AppView) -> bool {
    runner_step_ok(k, old.curve.runner, new.curve.runner)
}

/// The state and outcome after a value came out of the entry box: in manual
/// mode the focused tile takes it (within limits) and it is to be sent; in
/// automatic mode the selected curve point takes it as temperature. Either
/// way, and on abort, the box closes.
pub open spec fn entry_step(a: AppView, input: FloatInput<i64>) -> (AppView, KeyOutcome) {
    match input {
        FloatInput::Value(v) => match a.mode {
            AppMode::Manual => (
                AppView {
                    input_state: InputState::Normal,
                    ..with_focused_tile(a, control_targeted(focused_tile(a), v as int))
                },
                KeyOutcome::SendCurrentValue,
            ),
            AppMode::Auto => (
                AppView {
                    input_state: InputState::Normal,
                    curve: curve_temp_set(a.curve, v as int),
                    ..a
                },
                KeyOutcome::Done,
            ),
        },
        FloatInput::Abort => (AppView { input_state: InputState::Normal, ..a }, KeyOutcome::Done),
        FloatInput::Pending => (a, KeyOutcome::Done),
    }
}

/// The key is one of the keys that delete a curve point: Delete, d or x.
pub open spec fn is_delete_key(code: KeyCode) -> bool {
    code == KeyCode::Delete || code == KeyCode::Char('d') || code == KeyCode::Char('x')
}

/// The key event deletes the selected curve point.
pub open spec fn key_deletes_point(a: AppView, key: KeyEvent) -> bool {
    &&& key.kind == KeyEventKind::Press
    &&& a.input_state == InputState::Normal
    &&& a.mode == AppMode::Auto
    &&& is_delete_key(key.code)
}

/// A key event can be handled: one that deletes a curve point needs the
/// selection on the curve (or a curve of two points or fewer, which is kept).
pub open spec fn key_allowed_in(a: AppView, key: KeyEvent) -> bool {
    key_deletes_point(a, key) ==> curve_deletable(a)
}

/// Whether [`handle_key`] may be called with `key` (see [`key_allowed_in`]).
pub fn key_allowed(app: &App, key: KeyEvent) -> (r: bool)
    ensures
        r == key_allowed_in(app@, key),
{
    let deletes = key.kind == KeyEventKind::Press && app.input_state == InputState::Normal
        && app.mode == AppMode::Auto && match key.code {
        KeyCode::Delete | KeyCode::Char('d') | KeyCode::Char('x') => true,
        _ => false,
    };
    !deletes || app.curve.points.len() <= 2 || app.curve.selected < app.curve.points.len()
}

/// Handles one key event (see [`key_step`] and [`key_runner`]).
pub fn handle_key(app: &mut App, key: KeyEvent) -> (r: KeyOutcome)
    requires
        key_allowed_in(old(app)@, key),
    ensures
        final(app)@ == with_runner_of(key_step(old(app)@, key).0, final(app)@),
        r == key_step(old(app)@, key).1,
        runner_moved(key_runner(old(app)@, key), old(app)@, final(app)@),
{
    if key.kind != KeyEventKind::Press {
        return KeyOutcome::Done;
    }
    if app.input_state == InputState::Editing {
        return KeyOutcome::ToEntry;
    }
    match key.code {
        KeyCode::Char('q') => {
            app.exit = true;
            return KeyOutcome::Done;
        },
        KeyCode::Char('m') => {
            app.toggle_mode();
            return KeyOutcome::Done;
        },
        KeyCode::Char('g') => {
            app.toggle_right_view();
            return KeyOutcome::Done;
        },
        KeyCode::Char('e') => {
            app.input_state = InputState::Editing;
            return KeyOutcome::OpenEntry;
        },
        _ => {},
    }
    match app.mode {
        AppMode::Manual => handle_manual_key(app, key.code),
        AppMode::Auto => {
            handle_auto_key(app, key.code);
            KeyOutcome::Done
        },
    }
}

/// A key in manual mode (see [`manual_key_step`]).
fn handle_manual_key(app: &mut App, code: KeyCode) -> (r: KeyOutcome)
    ensures
        final(app)@ == manual_key_step(old(app)@, code).0,
        r == manual_key_step(old(app)@, code).1,
{
    match code {
        KeyCode::Tab => {
            let f = app.manual_focus.next();
            app.change_manual_focus(f);
        },
        KeyCode::BackTab => {
            let f = app.manual_focus.prev();
            app.change_manual_focus(f);
        },
        KeyCode::Char('0') => app.change_manual_focus(ManualFocus::Temp),
        KeyCode::Char('1') => app.change_manual_focus(ManualFocus::Flap),
        KeyCode::Char('2') => app.change_manual_focus(ManualFocus::Fan),
        KeyCode::Up | KeyCode::Right | KeyCode::Char('+') => {
            app.focused_control_mut().increase();
        },
        KeyCode::Down | KeyCode::Left | KeyCode::Char('-') => {
            app.focused_control_mut().decrease();
        },
        KeyCode::Enter => {
            return KeyOutcome::SendCurrentValue;
        },
        _ => {},
    }
    KeyOutcome::Done
}

/// The runner went from `r0` to `r1` as `k` says.
pub open spec fn runner_step_ok(k: RunnerKey, r0: CurveRunner, r1: CurveRunner) -> bool {
    match k {
        RunnerKey::Keep => r1 == r0,
        RunnerKey::Toggle => {
            &&& r1.status == toggled_status(r0.status)
            &&& r0.status == RunnerStatus::Running ==> !r1.leg_started() && r1.banked() >= r0.banked()
            &&& r0.status == RunnerStatus::Paused ==> r1.leg_started() && r1.banked() == r0.banked()
            &&& (r0.status == RunnerStatus::Idle || r0.status == RunnerStatus::Finished)
                ==> r1.leg_started() && r1.banked() == 0
        },
        RunnerKey::Stop => r1.status == RunnerStatus::Idle && r1.banked() == 0 && !r1.leg_started(),
    }
}

/// A key in automatic mode (see [`auto_curve_step`] and
/// [`auto_runner_key`]).
fn handle_auto_key(app: &mut App, code: KeyCode)
    requires
        is_delete_key(code) ==> curve_deletable(old(app)@),
    ensures
        final(app)@ == with_runner_of(
            AppView { curve: auto_curve_step(old(app)@.curve, code), ..old(app)@ },
            final(app)@,
        ),
        runner_moved(auto_runner_key(code), old(app)@, final(app)@),
{
    handle_curve_key(&mut app.curve, code);
}

/// A key in automatic mode, as it acts on the curve editor.
fn handle_curve_key(curve: &mut CurveWidget, code: KeyCode)
    requires
        is_delete_key(code) ==> old(curve).points@.len() <= 2 || old(curve).selected
            < old(curve).points@.len(),
    ensures
        final(curve)@ == (CurveView { runner: final(curve).runner, ..auto_curve_step(old(curve)@, code) }),
        runner_step_ok(auto_runner_key(code), old(curve).runner, final(curve).runner),
{
    match code {
        KeyCode::Left | KeyCode::Char('h') => {
            curve.prev_point();
        },
        KeyCode::Right | KeyCode::Char('l') => {
            curve.next_point();
        },
        KeyCode::Up | KeyCode::Char('k') => {
            curve.increase_temp();
        },
        KeyCode::Down | KeyCode::Char('j') => {
            curve.decrease_temp();
        },
        KeyCode::Char('+') | KeyCode::Char(']') => {
            curve.increase_time();
        },
        KeyCode::Char('-') | KeyCode::Char('[') => {
            curve.decrease_time();
        },
        KeyCode::Char('a') | KeyCode::Char('n') | KeyCode::Insert => {
            curve.add_point();
        },
        KeyCode::Char('d') | KeyCode::Char('x') | KeyCode::Delete => {
            curve.delete_point();
        },
        KeyCode::Char(' ') | KeyCode::Char('r') => {
            curve.runner.toggle_run_pause();
        },
        KeyCode::Char('s') => {
            curve.runner.stop();
        },
        _ => {},
    }
}

/// A result of the entry box can be handled: a value is held to limits that
/// must be ordered, those of the focused tile in manual mode and those of the
/// curve in automatic mode.
pub open spec fn entry_allowed_in(a: AppView, input: FloatInput<i64>) -> bool {
    match input {
        FloatInput::Value(_) => match a.mode {
            AppMode::Manual => focused_tile(a).min <= focused_tile(a).max,
            AppMode::Auto => a.curve.min_temp <= a.curve.max_temp,
        },
        _ => true,
    }
}

/// Whether [`handle_entry`] may be called with `input` (see
/// [`entry_allowed_in`]).
pub fn entry_allowed(app: &App, input: &FloatInput<i64>) -> (r: bool)
    ensures
        r == entry_allowed_in(app@, *input),
{
    match input {
        FloatInput::Value(_) => match app.mode {
            AppMode::Manual => match app.manual_focus {
                ManualFocus::Temp => app.temp.min <= app.temp.max,
                ManualFocus::Flap => app.flap.min <= app.flap.max,
                ManualFocus::Fan => app.fan.min <= app.fan.max,
            },
            AppMode::Auto => app.curve.min_temp <= app.curve.max_temp,
        },
        _ => true,
    }
}

/// Handles a result of the entry box (see [`entry_step`]).
pub fn handle_entry(app: &mut App, input: FloatInput<i64>) -> (r: KeyOutcome)
    requires
        entry_allowed_in(old(app)@, input),
    ensures
        final(app)@ == entry_step(old(app)@, input).0,
        r == entry_step(old(app)@, input).1,
{
    match input {
        FloatInput::Value(val) => {
            let out = match app.mode {
                AppMode::Manual => {
                    app.focused_control_mut().set_target(val);
                    KeyOutcome::SendCurrentValue
                },
                AppMode::Auto => {
                    app.curve.set_selected_temp(val);
                    KeyOutcome::Done
                },
            };
            app.input_state = InputState::Normal;
            out
        },
        FloatInput::Abort => {
            app.input_state = InputState::Normal;
            KeyOutcome::Done
        },
        FloatInput::Pending => KeyOutcome::Done,
    }
}

/// In automatic mode the setpoint tiles are read-only: no key event and no
/// typed entry changes their edited values.
pub proof fn lemma_auto_mode_keeps_setpoints(a: AppView, key: KeyEvent, input: FloatInput<i64>)
    requires
        a.mode == AppMode::Auto,
    ensures
        key_step(a, key).0.temp.value == a.temp.value,
        key_step(a, key).0.flap.value == a.flap.value,
        key_step(a, key).0.fan.value == a.fan.value,
        entry_step(a, input).0.temp.value == a.temp.value,
        entry_step(a, input).0.flap.value == a.flap.value,
        entry_step(a, input).0.fan.value == a.fan.value,
{
}

/// Every key event and every typed entry keeps the tiles' highlight and lock
/// in line with the mode, and keeps the state well formed.
pub proof fn lemma_keys_keep_tiles_matching_mode(a: AppView, key: KeyEvent, input: FloatInput<i64>)
    requires
        tiles_match_mode(a),
        app_wf(a),
    ensures
        tiles_match_mode(key_step(a, key).0),
        tiles_match_mode(entry_step(a, input).0),
        app_wf(key_step(a, key).0),
        app_wf(entry_step(a, input).0),
{
    let c = a.curve;
    if a.mode == AppMode::Auto && key.kind == KeyEventKind::Press {
        if c.selected < c.points.len() {
            crate::widgets::curve_widget::lemma_edits_keep_selection(c.points, c.selected as int);
        } else {
            let added = crate::widgets::curve_widget::added_curve(c.points, c.selected as int);
            assert(added.1 < added.0.len());
        }
    }
}

/// Switching from manual to automatic mode and back gives the same state,
/// except that the live graph is shown.
pub proof fn lemma_mode_round_trip(a: AppView)
    requires
        a.mode == AppMode::Manual,
        tiles_match_mode(a),
        !a.curve.selected_tile,
    ensures
        mode_set(mode_set(a, AppMode::Auto), AppMode::Manual) == (AppView {
            right_view: crate::tui::state::RightView::LiveGraph,
            ..a
        }),
{
}

/// Pressing q quits whenever the entry box is closed; key releases and
/// repeats change nothing.
pub proof fn lemma_quit_and_ignored_keys(a: AppView, key: KeyEvent)
    ensures
        key.kind == KeyEventKind::Press && a.input_state == InputState::Normal && key.code
            == KeyCode::Char('q') ==> key_step(a, key).0.exit,
        key.kind != KeyEventKind::Press ==> key_step(a, key) == (a, KeyOutcome::Done)
            && key_runner(a, key) == RunnerKey::Keep,
{
}

/// In manual mode with the entry box closed, Right and + act as Up, and Left
/// and - act as Down. Up raises the focused tile's edited value by its step,
/// capped at its maximum; Down lowers it by its step, raised to its minimum;
/// a locked tile keeps its value. The focus and the other tiles stay.
pub proof fn lemma_manual_step_keys(a: AppView, code: KeyCode)
    requires
        a.mode == AppMode::Manual,
        a.input_state == InputState::Normal,
    ensures
        key_step(a, KeyEvent { code: KeyCode::Right, kind: KeyEventKind::Press }) == key_step(
            a,
            KeyEvent { code: KeyCode::Up, kind: KeyEventKind::Press },
        ),
        key_step(a, KeyEvent { code: KeyCode::Char('+'), kind: KeyEventKind::Press }) == key_step(
            a,
            KeyEvent { code: KeyCode::Up, kind: KeyEventKind::Press },
        ),
        key_step(a, KeyEvent { code: KeyCode::Left, kind: KeyEventKind::Press }) == key_step(
            a,
            KeyEvent { code: KeyCode::Down, kind: KeyEventKind::Press },
        ),
        key_step(a, KeyEvent { code: KeyCode::Char('-'), kind: KeyEventKind::Press }) == key_step(
            a,
            KeyEvent { code: KeyCode::Down, kind: KeyEventKind::Press },
        ),
        code == KeyCode::Up || code == KeyCode::Down ==> {
            let b = key_step(a, KeyEvent { code, kind: KeyEventKind::Press });
            &&& b.1 == KeyOutcome::Done
            &&& b.0.manual_focus == a.manual_focus
            &&& a.manual_focus != ManualFocus::Temp ==> b.0.temp == a.temp
            &&& a.manual_focus != ManualFocus::Flap ==> b.0.flap == a.flap
            &&& a.manual_focus != ManualFocus::Fan ==> b.0.fan == a.fan
            &&& focused_tile(b.0).step == focused_tile(a).step
            &&& focused_tile(b.0).applied_value == focused_tile(a).applied_value
        },
        ({
            let t = focused_tile(a);
            let b = key_step(a, KeyEvent { code: KeyCode::Up, kind: KeyEventKind::Press }).0;
            t.value + t.step >= i64::MIN ==> focused_tile(b).value == if t.locked {
                t.value as int
            } else if t.value + t.step <= t.max {
                t.value + t.step
            } else {
                t.max as int
            }
        }),
        ({
            let t = focused_tile(a);
            let b = key_step(a, KeyEvent { code: KeyCode::Down, kind: KeyEventKind::Press }).0;
            t.value - t.step <= i64::MAX ==> focused_tile(b).value == if t.locked {
                t.value as int
            } else if t.value - t.step >= t.min {
                t.value - t.step
            } else {
                t.min as int
            }
        }),
{
}

/// What "send" writes is the focused tile's edited value, under the focused
/// tile's name, in manual mode, and nothing in automatic mode; so a step of
/// the focused tile followed by a send writes the stepped value.
pub proof fn lemma_send_carries_edited_value(a: AppView)
    ensures
        a.mode == AppMode::Auto ==> send_request_of(a) is None,
        a.mode == AppMode::Manual && a.manual_focus == ManualFocus::Temp ==> send_request_of(a)
            == Some(Setpoint::Temp(a.temp.value)),
        a.mode == AppMode::Manual && a.manual_focus == ManualFocus::Flap ==> send_request_of(a)
            == Some(Setpoint::Flap(a.flap.value)),
        a.mode == AppMode::Manual && a.manual_focus == ManualFocus::Fan ==> send_request_of(a)
            == Some(Setpoint::Fan(a.fan.value)),
        a.mode == AppMode::Manual ==> crate::atmoweb::setpoint_value(send_request_of(a).unwrap())
            == focused_tile(a).value,
        a.mode == AppMode::Manual && a.input_state == InputState::Normal ==> {
            let b = key_step(a, KeyEvent { code: KeyCode::Up, kind: KeyEventKind::Press }).0;
            crate::atmoweb::setpoint_value(send_request_of(b).unwrap()) == focused_tile(b).value
        },
{
}

} // verus!
