use atmoweb_tui::tui::state::{AppMode, AppState, ManualFocus};

#[test]
fn test_mode_toggle() {
    assert_eq!(AppMode::Manual.toggle(), AppMode::Auto);
    assert_eq!(AppMode::Auto.toggle(), AppMode::Manual);
}

#[test]
fn test_focus_cycle() {
    assert_eq!(ManualFocus::Temp.next(), ManualFocus::Flap);
    assert_eq!(ManualFocus::Flap.next(), ManualFocus::Fan);
    assert_eq!(ManualFocus::Fan.next(), ManualFocus::Temp);

    assert_eq!(ManualFocus::Temp.prev(), ManualFocus::Fan);
    assert_eq!(ManualFocus::Fan.prev(), ManualFocus::Flap);
    assert_eq!(ManualFocus::Flap.prev(), ManualFocus::Temp);
}

#[test]
fn test_app_state() {
    let state = AppState::Connecting;
    assert_eq!(state, AppState::Connecting);
    assert_ne!(state, AppState::Running);
}

#[test]
fn focus_next_then_prev_returns() {
    for f in [ManualFocus::Temp, ManualFocus::Flap, ManualFocus::Fan] {
        assert_eq!(f.next().prev(), f);
        assert_eq!(f.prev().next(), f);
        assert_eq!(f.next().next().next(), f);
    }
}

#[test]
fn mode_toggle_twice_returns() {
    for m in [AppMode::Manual, AppMode::Auto] {
        assert_eq!(m.toggle().toggle(), m);
    }
}
