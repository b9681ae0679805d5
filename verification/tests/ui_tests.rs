use atmoweb_tui::tui::state::{AppState, InputState};
use atmoweb_tui::tui::ui::{layout_centered_box, plan_screen, Rect, Screen};
use atmoweb_tui::widgets::connecting_widget::ConnectingWidget;
use atmoweb_tui::widgets::float_input_widget::{entry_action, validity_after, EntryAction, EntryKey};
use atmoweb_tui::widgets::footer_widget::FooterWidget;
use atmoweb_tui::widgets::header_widget::HeaderWidget;
use atmoweb_tui::tui::state::AppMode;

#[test]
fn screen_choice() {
    assert_eq!(plan_screen(AppState::Connecting, InputState::Normal, 40, 10), Screen::TooSmall);
    assert_eq!(plan_screen(AppState::Running, InputState::Normal, 69, 30), Screen::TooSmall);
    assert_eq!(
        plan_screen(AppState::Connecting, InputState::Normal, 80, 24),
        Screen::Connecting { popup_width: 62 }
    );
    assert_eq!(
        plan_screen(AppState::Connecting, InputState::Normal, 70, 20),
        Screen::Connecting { popup_width: 62 }
    );
    assert_eq!(
        plan_screen(AppState::Running, InputState::Editing, 80, 24),
        Screen::Main { entry_open: true }
    );
}

#[test]
fn centered_box_is_centered() {
    let area = Rect { x: 0, y: 0, width: 80, height: 24 };
    let r = layout_centered_box(area, 60, 3);
    assert_eq!((r.width, r.height), (60, 3));
    assert!(r.x >= 9 && r.x <= 11);
    assert!(r.y >= 10 && r.y <= 11);
}

#[test]
fn connecting_spinner() {
    let w = ConnectingWidget::new(
        "192.168.1.22",
        "Oven unreachable at 192.168.1.22. Waiting for connection...",
        4,
    );
    assert_eq!(w.spinner_frame(), 2);
    assert_eq!(ConnectingWidget::new("x", "y", 21).spinner_frame(), 0);
    assert_eq!(ConnectingWidget::new("x", "y", 19).spinner_frame(), 9);
}

#[test]
fn header_and_footer_hold_their_inputs() {
    let h = HeaderWidget::new(AppMode::Auto, false, "192.168.1.22");
    assert_eq!(h.mode, AppMode::Auto);
    assert!(!h.online);
    assert_eq!(h.oven_ip, "192.168.1.22");
    let state = InputState::Editing;
    let f = FooterWidget::new(AppMode::Manual, &state);
    assert_eq!(*f.input_state, InputState::Editing);
}

#[test]
fn entry_box_keys() {
    assert_eq!(entry_action(EntryKey::Esc, true), EntryAction::Abort);
    assert_eq!(entry_action(EntryKey::Enter, true), EntryAction::Accept);
    assert_eq!(entry_action(EntryKey::Enter, false), EntryAction::Ignore);
    assert_eq!(entry_action(EntryKey::CtrlM, true), EntryAction::Ignore);
    assert_eq!(entry_action(EntryKey::Other, false), EntryAction::Edit);
}

#[test]
fn entry_box_validity_flag() {
    // an edit that changed the text takes the new verdict
    assert!(validity_after(EntryAction::Edit, false, true, true));
    assert!(!validity_after(EntryAction::Edit, true, true, false));
    // an edit that changed nothing keeps the flag
    assert!(validity_after(EntryAction::Edit, true, false, false));
    // taking a number keeps the flag, though the box is cleared
    assert!(validity_after(EntryAction::Accept, true, true, false));
    assert!(!validity_after(EntryAction::Ignore, false, true, true));
    assert!(validity_after(EntryAction::Abort, true, false, false));
}
