use atmoweb_tui::app::{App, Focus, KeyOutcome};
use atmoweb_tui::tui::app::Setpoint;
use atmoweb_tui::tui::handler::{KeyCode, KeyEvent, KeyEventKind};

fn press(code: KeyCode) -> KeyEvent {
    KeyEvent { code, kind: KeyEventKind::Press }
}

#[test]
fn focus_cycles() {
    assert_eq!(Focus::Temp.next(), Focus::Flap);
    assert_eq!(Focus::Fan.next(), Focus::Temp);
    assert_eq!(Focus::Temp.prev(), Focus::Fan);
    assert_eq!(Focus::Flap.prev(), Focus::Temp);
}

#[test]
fn plain_controller_keys() {
    let mut app = App::new("oven".to_string());
    assert_eq!(app.status, "Bereit");
    assert!(app.temp.selected);
    assert_eq!(app.temp.value, 21_000);
    app.handle_key(press(KeyCode::Up));
    assert_eq!(app.temp.value, 21_500);
    app.handle_key(press(KeyCode::Tab));
    assert_eq!(app.focus, Focus::Flap);
    assert!(!app.temp.selected && app.flap.selected);
    app.handle_key(press(KeyCode::Up));
    assert_eq!(app.flap.value, 5_000);
    assert_eq!(app.handle_key(press(KeyCode::Enter)), KeyOutcome::SendCurrentValue);
    assert_eq!(app.send_request(), Setpoint::Flap(5_000));
    app.handle_key(press(KeyCode::BackTab));
    assert_eq!(app.focus, Focus::Temp);
    app.handle_key(KeyEvent { code: KeyCode::Char('q'), kind: KeyEventKind::Repeat });
    assert!(!app.exit);
    app.handle_key(press(KeyCode::Char('q')));
    assert!(app.exit);
    app.apply_readings(true, Some(22_000), None, None);
    assert_eq!(app.temp.current, 22_000);
    app.set_status("Übernommen: 5.0".to_string());
    assert_eq!(app.status, "Übernommen: 5.0");
}
