use atmoweb_tui::widgets::control_widget::ControlWidget;

// Values are fixed-point thousandths: 100_000 is 100.0, 5_000 is 5.0.

#[test]
fn test_lock_prevents_modification() {
    let mut widget = ControlWidget::new("Temp", 100_000, "°C", 5_000, 20_000, 300_000);
    assert_eq!(widget.value, 100_000);

    widget.increase();
    assert_eq!(widget.value, 105_000);

    widget.set_locked(true);
    assert!(widget.locked);
    assert!(!widget.selected);

    // Increase and decrease should be no-ops when locked
    widget.increase();
    assert_eq!(widget.value, 105_000);
    widget.decrease();
    assert_eq!(widget.value, 105_000);

    widget.set_locked(false);
    widget.decrease();
    assert_eq!(widget.value, 100_000);
}

#[test]
fn test_dirty_state_and_apply() {
    let mut widget = ControlWidget::new("Temp", 100_000, "°C", 5_000, 20_000, 300_000);
    assert!(!widget.is_dirty());

    widget.increase();
    assert_eq!(widget.value, 105_000);
    assert!(widget.is_dirty());

    widget.decrease();
    assert_eq!(widget.value, 100_000);
    assert!(!widget.is_dirty());

    widget.increase();
    assert!(widget.is_dirty());
    widget.mark_applied();
    assert!(!widget.is_dirty());
    assert_eq!(widget.applied_value, 105_000);

    // sync_applied when clean should update both
    widget.sync_applied(120_000);
    assert_eq!(widget.value, 120_000);
    assert_eq!(widget.applied_value, 120_000);
    assert!(!widget.is_dirty());

    // sync_applied when dirty should not overwrite pending user edit
    widget.increase();
    assert_eq!(widget.value, 125_000);
    assert!(widget.is_dirty());
    widget.sync_applied(130_000);
    assert_eq!(widget.value, 125_000);
    assert_eq!(widget.applied_value, 130_000);
    assert!(widget.is_dirty());
}

#[test]
fn steps_are_capped_at_limits() {
    let mut widget = ControlWidget::new("Flap", 98_000, "%", 5_000, 0, 100_000);
    widget.increase();
    assert_eq!(widget.value, 100_000);
    widget.increase();
    assert_eq!(widget.value, 100_000);
    widget.set_target(3_000);
    widget.decrease();
    assert_eq!(widget.value, 0);
}

#[test]
fn set_target_is_clamped_even_when_locked() {
    let mut widget = ControlWidget::new("Temp", 100_000, "°C", 500, 20_000, 300_000);
    widget.set_locked(true);
    widget.set_target(500_000);
    assert_eq!(widget.value, 300_000);
    widget.set_target(-5_000);
    assert_eq!(widget.value, 20_000);
    widget.set_target(42_500);
    assert_eq!(widget.value, 42_500);
}

#[test]
fn dirty_tolerance_is_one_thousandth() {
    let mut widget = ControlWidget::new("Temp", 100_000, "°C", 1, 0, 300_000);
    widget.increase();
    assert_eq!(widget.value, 100_001);
    assert!(!widget.is_dirty());
    widget.increase();
    assert!(widget.is_dirty());
}

#[test]
fn sync_applied_clamps() {
    let mut widget = ControlWidget::new("Fan", 10_000, "%", 1_000, 0, 100_000);
    widget.sync_applied(250_000);
    assert_eq!(widget.applied_value, 100_000);
    assert_eq!(widget.value, 100_000);
}

#[test]
fn select_deselect_and_current() {
    let mut widget = ControlWidget::new("Fan", 0, "%", 1_000, 0, 100_000);
    assert!(!widget.selected);
    widget.select();
    assert!(widget.selected);
    widget.deselect();
    assert!(!widget.selected);
    widget.set_current(33_000);
    assert_eq!(widget.current, 33_000);
    assert_eq!(widget.value, 0);
}

#[test]
fn title_and_bar() {
    let mut widget = ControlWidget::new("Temp", 160_000, "°C", 500, 20_000, 300_000);
    assert_eq!(widget.title_text(), " Temp ");
    widget.set_locked(true);
    assert_eq!(widget.title_text(), " Temp [LOCKED] ");
    assert_eq!(widget.bar_fill(20), 10);
    assert_eq!(widget.bar_fill(0), 0);
    widget.set_target(20_000);
    assert_eq!(widget.bar_fill(20), 0);
    widget.set_target(300_000);
    assert_eq!(widget.bar_fill(20), 20);
    widget.set_target(27_000);
    assert_eq!(widget.bar_fill(20), 1);
    let flat = ControlWidget::new("Flat", 5_000, "%", 1_000, 5_000, 5_000);
    assert_eq!(flat.bar_fill(10), 0);
}
