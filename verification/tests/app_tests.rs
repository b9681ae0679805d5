use atmoweb_tui::tui::app::{App, Setpoint};
use atmoweb_tui::tui::handler::{
    entry_allowed, handle_entry, handle_key, key_allowed, KeyCode, KeyEvent, KeyEventKind, KeyOutcome,
};
use atmoweb_tui::tui::state::{AppMode, AppState, InputState, ManualFocus, RightView};
use atmoweb_tui::widgets::curve_widget::RunnerStatus;
use atmoweb_tui::widgets::float_input_widget::FloatInput;

fn press(code: KeyCode) -> KeyEvent {
    KeyEvent { code, kind: KeyEventKind::Press }
}

#[test]
fn new_app_starts_connecting_in_manual_mode() {
    let app = App::new("127.0.0.1:8080".to_string());
    assert_eq!(app.state, AppState::Connecting);
    assert_eq!(app.mode, AppMode::Manual);
    assert_eq!(app.manual_focus, ManualFocus::Temp);
    assert_eq!(app.right_view, RightView::LiveGraph);
    assert!(app.temp.selected && !app.flap.selected && !app.fan.selected);
    assert_eq!(app.temp.value, 20_000);
    assert_eq!(app.temp.step, 500);
    assert_eq!(app.flap.max, 100_000);
    assert_eq!(app.curve.points.len(), 6);
    assert_eq!(app.graph.max, 300_000);
}

#[test]
fn quit_and_released_keys() {
    let mut app = App::new("oven".to_string());
    let out = handle_key(&mut app, KeyEvent { code: KeyCode::Char('q'), kind: KeyEventKind::Release });
    assert_eq!(out, KeyOutcome::Done);
    assert!(!app.exit);
    handle_key(&mut app, press(KeyCode::Char('q')));
    assert!(app.exit);
}

#[test]
fn manual_keys_focus_and_step() {
    let mut app = App::new("oven".to_string());
    handle_key(&mut app, press(KeyCode::Tab));
    assert_eq!(app.manual_focus, ManualFocus::Flap);
    assert!(!app.temp.selected && app.flap.selected);
    handle_key(&mut app, press(KeyCode::Up));
    handle_key(&mut app, press(KeyCode::Char('+')));
    assert_eq!(app.flap.value, 2_000);
    handle_key(&mut app, press(KeyCode::Left));
    assert_eq!(app.flap.value, 1_000);
    handle_key(&mut app, press(KeyCode::Char('2')));
    assert_eq!(app.manual_focus, ManualFocus::Fan);
    handle_key(&mut app, press(KeyCode::BackTab));
    assert_eq!(app.manual_focus, ManualFocus::Flap);
    assert_eq!(handle_key(&mut app, press(KeyCode::Enter)), KeyOutcome::SendCurrentValue);
    assert_eq!(app.send_request(), Some(Setpoint::Flap(1_000)));
}

#[test]
fn auto_mode_locks_setpoints() {
    let mut app = App::new("oven".to_string());
    handle_key(&mut app, press(KeyCode::Char('m')));
    assert_eq!(app.mode, AppMode::Auto);
    assert!(app.temp.locked && app.flap.locked && app.fan.locked);
    assert!(!app.temp.selected);
    assert!(app.curve.selected_tile);
    assert_eq!(app.right_view, RightView::Curve);
    let before = (app.temp.value, app.flap.value, app.fan.value);
    for code in [KeyCode::Up, KeyCode::Down, KeyCode::Char('+'), KeyCode::Char('-'), KeyCode::Enter] {
        handle_key(&mut app, press(code));
    }
    assert_eq!((app.temp.value, app.flap.value, app.fan.value), before);
    assert_eq!(app.send_request(), None);
    // back to manual mode: unlocked, focused tile highlighted, graph shown
    handle_key(&mut app, press(KeyCode::Char('m')));
    assert!(!app.temp.locked && app.temp.selected);
    assert_eq!(app.right_view, RightView::LiveGraph);
}

#[test]
fn auto_keys_edit_curve_and_runner() {
    let mut app = App::new("oven".to_string());
    app.set_mode(AppMode::Auto);
    handle_key(&mut app, press(KeyCode::Char('l')));
    assert_eq!(app.curve.selected, 2);
    handle_key(&mut app, press(KeyCode::Char('k')));
    assert_eq!(app.curve.points[2].temp, 105_000);
    handle_key(&mut app, press(KeyCode::Char(']')));
    assert_eq!(app.curve.points[2].time_min, 50 * 60_000_000_000);
    handle_key(&mut app, press(KeyCode::Insert));
    assert_eq!(app.curve.points.len(), 7);
    handle_key(&mut app, press(KeyCode::Delete));
    assert_eq!(app.curve.points.len(), 6);
    handle_key(&mut app, press(KeyCode::Char(' ')));
    assert_eq!(app.curve.runner.status, RunnerStatus::Running);
    handle_key(&mut app, press(KeyCode::Char('r')));
    assert_eq!(app.curve.runner.status, RunnerStatus::Paused);
    handle_key(&mut app, press(KeyCode::Char('s')));
    assert_eq!(app.curve.runner.status, RunnerStatus::Idle);
}

#[test]
fn entry_box_flow() {
    let mut app = App::new("oven".to_string());
    assert_eq!(handle_key(&mut app, press(KeyCode::Char('e'))), KeyOutcome::OpenEntry);
    assert_eq!(app.input_state, InputState::Editing);
    assert_eq!(handle_key(&mut app, press(KeyCode::Char('q'))), KeyOutcome::ToEntry);
    assert!(!app.exit);
    assert_eq!(handle_entry(&mut app, FloatInput::Pending), KeyOutcome::Done);
    assert_eq!(app.input_state, InputState::Editing);
    assert_eq!(handle_entry(&mut app, FloatInput::Value(555_000)), KeyOutcome::SendCurrentValue);
    assert_eq!(app.input_state, InputState::Normal);
    assert_eq!(app.temp.value, 300_000);

    app.set_mode(AppMode::Auto);
    handle_key(&mut app, press(KeyCode::Char('e')));
    assert_eq!(handle_entry(&mut app, FloatInput::Value(150_500)), KeyOutcome::Done);
    assert_eq!(app.curve.points[1].temp, 150_500);
    assert_eq!(app.temp.value, 300_000);
    handle_key(&mut app, press(KeyCode::Char('e')));
    handle_entry(&mut app, FloatInput::Abort);
    assert_eq!(app.input_state, InputState::Normal);
}

#[test]
fn right_view_toggles() {
    let mut app = App::new("oven".to_string());
    handle_key(&mut app, press(KeyCode::Char('g')));
    assert_eq!(app.right_view, RightView::Curve);
    app.toggle_right_view();
    assert_eq!(app.right_view, RightView::LiveGraph);
}

#[test]
fn readings_connection_and_history() {
    let mut app = App::new("10.0.0.5".to_string());
    app.update_connection(false);
    assert_eq!(app.state, AppState::Connecting);
    assert_eq!(app.connect_status, "Oven unreachable at 10.0.0.5. Waiting for connection...");
    app.update_connection(true);
    assert_eq!(app.state, AppState::Running);
    app.apply_readings(true, Some(25_500), None, Some(40_000));
    assert!(app.online);
    assert_eq!(app.temp.current, 25_500);
    assert_eq!(app.flap.current, 0);
    assert_eq!(app.fan.current, 40_000);
    app.record_sample(30_000);
    assert_eq!(app.graph.current_history.back(), Some(&(0, 25_500)));
    assert_eq!(app.graph.target_history.back(), Some(&(0, 30_000)));
    app.advance_spinner();
    assert_eq!(app.spinner_tick, 1);
}

#[test]
fn auto_step_drives_temperature() {
    let mut app = App::new("oven".to_string());
    assert_eq!(app.auto_step(), None);
    app.set_mode(AppMode::Auto);
    assert_eq!(app.auto_step(), None);
    app.curve.runner.start_or_resume();
    let target = app.auto_step();
    assert!(target.is_some());
    assert_eq!(app.temp.value, target.unwrap().clamp(20_000, 300_000));
}

#[test]
fn auto_step_after_follows_curve() {
    let mut app = App::new("oven".to_string());
    app.curve.runner.start_or_resume();
    assert_eq!(app.auto_step_after(55 * 60_000_000_000), None);
    app.set_mode(AppMode::Auto);
    assert_eq!(app.auto_step_after(55 * 60_000_000_000), Some(150_000));
    assert_eq!(app.temp.value, 150_000);
    assert_eq!(app.curve.runner.status, RunnerStatus::Running);
    assert_eq!(app.auto_step_after(200 * 60_000_000_000), Some(30_000));
    assert_eq!(app.temp.value, 30_000);
    assert_eq!(app.curve.runner.status, RunnerStatus::Finished);
    assert_eq!(app.auto_step_after(0), None);
}

#[test]
fn which_keys_and_entries_can_be_handled() {
    let mut app = App::new("oven".to_string());
    app.curve.selected = 99;
    // outside automatic mode a delete key touches no curve point
    assert!(key_allowed(&app, press(KeyCode::Delete)));
    app.set_mode(AppMode::Auto);
    assert!(!key_allowed(&app, press(KeyCode::Delete)));
    assert!(!key_allowed(&app, press(KeyCode::Char('x'))));
    assert!(key_allowed(&app, KeyEvent { code: KeyCode::Char('d'), kind: KeyEventKind::Release }));
    assert!(key_allowed(&app, press(KeyCode::Up)));
    app.curve.selected = 2;
    assert!(key_allowed(&app, press(KeyCode::Char('d'))));

    let mut app = App::new("oven".to_string());
    app.flap.min = 50_000;
    app.flap.max = 10_000;
    // the temperature tile has focus: its limits are ordered
    assert!(entry_allowed(&app, &FloatInput::Value(1)));
    app.manual_focus = ManualFocus::Flap;
    assert!(!entry_allowed(&app, &FloatInput::Value(1)));
    assert!(entry_allowed(&app, &FloatInput::Pending));
    assert!(entry_allowed(&app, &FloatInput::Abort));
    app.set_mode(AppMode::Auto);
    assert!(entry_allowed(&app, &FloatInput::Value(1)));
}
