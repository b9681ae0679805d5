use atmoweb_tui::widgets::curve_widget::{
    curve_time_of_nanos, CurvePoint, CurveRunner, CurveWidget, RunnerStatus,
};

// Times are nanoseconds, temperatures thousandths of a degree.
const MIN: i64 = 60_000_000_000;

#[test]
fn test_interpolation() {
    let mut widget = CurveWidget::new("Curve", "°C", 20_000, 300_000);
    widget.points = vec![
        CurvePoint { time_min: 0, temp: 20_000 },
        CurvePoint { time_min: 10 * MIN, temp: 120_000 },
        CurvePoint { time_min: 20 * MIN, temp: 120_000 },
    ];

    assert_eq!(widget.interpolate_temp(0), 20_000);
    assert_eq!(widget.interpolate_temp(5 * MIN), 70_000);
    assert_eq!(widget.interpolate_temp(10 * MIN), 120_000);
    assert_eq!(widget.interpolate_temp(15 * MIN), 120_000);
    assert_eq!(widget.interpolate_temp(20 * MIN), 120_000);
    assert_eq!(widget.interpolate_temp(30 * MIN), 120_000);
}

#[test]
fn test_add_delete_point() {
    let mut widget = CurveWidget::new("Curve", "°C", 20_000, 300_000);
    let initial_len = widget.points.len();

    widget.selected = 1;
    widget.add_point();
    assert_eq!(widget.points.len(), initial_len + 1);

    widget.delete_point();
    assert_eq!(widget.points.len(), initial_len);
}

#[test]
fn test_time_adjust() {
    let mut widget = CurveWidget::new("Curve", "°C", 20_000, 300_000);
    widget.selected = 1;
    let t1_orig = widget.points[1].time_min;
    let t2_orig = widget.points[2].time_min;

    widget.increase_time();
    assert_eq!(widget.points[1].time_min, t1_orig + 5 * MIN);
    assert_eq!(widget.points[2].time_min, t2_orig + 5 * MIN);
}

#[test]
fn test_runner_toggle() {
    let mut runner = CurveRunner::new();
    assert_eq!(runner.status, RunnerStatus::Idle);

    runner.toggle_run_pause();
    assert_eq!(runner.status, RunnerStatus::Running);

    runner.toggle_run_pause();
    assert_eq!(runner.status, RunnerStatus::Paused);

    runner.stop();
    assert_eq!(runner.status, RunnerStatus::Idle);
}

#[test]
fn default_curve_and_settings() {
    let widget = CurveWidget::new("Heating Curve", "°C", 20_000, 300_000);
    let times: Vec<i64> = widget.points.iter().map(|p| p.time_min).collect();
    let temps: Vec<i64> = widget.points.iter().map(|p| p.temp).collect();
    assert_eq!(times, vec![0, 15 * MIN, 45 * MIN, 65 * MIN, 125 * MIN, 155 * MIN]);
    assert_eq!(temps, vec![20_000, 100_000, 100_000, 200_000, 200_000, 30_000]);
    assert_eq!(widget.selected, 1);
    assert_eq!(widget.total_duration_min(), 155 * MIN);
    assert_eq!(widget.max_curve_temp(), 200_000);
}

#[test]
fn add_then_delete_restores_curve() {
    for sel in 0..6 {
        let mut widget = CurveWidget::new("Curve", "°C", 20_000, 300_000);
        let before = widget.points.clone();
        widget.selected = sel;
        widget.add_point();
        widget.delete_point();
        assert_eq!(widget.points, before);
    }
}

#[test]
fn add_point_midpoint_and_append() {
    let mut widget = CurveWidget::new("Curve", "°C", 20_000, 300_000);
    widget.selected = 0;
    widget.add_point();
    assert_eq!(widget.selected, 1);
    assert_eq!(widget.points[1], CurvePoint { time_min: 7 * MIN + MIN / 2, temp: 60_000 });

    widget.selected = widget.points.len() - 1;
    widget.add_point();
    assert_eq!(widget.selected, widget.points.len() - 1);
    assert_eq!(*widget.points.last().unwrap(), CurvePoint { time_min: 170 * MIN, temp: 30_000 });

    let mut empty = CurveWidget::new("Curve", "°C", 20_000, 300_000);
    empty.points.clear();
    empty.add_point();
    assert_eq!(empty.points, vec![CurvePoint { time_min: 0, temp: 20_000 }]);
    assert_eq!(empty.selected, 0);
}

#[test]
fn delete_keeps_two_points_and_resets_start() {
    let mut widget = CurveWidget::new("Curve", "°C", 20_000, 300_000);
    widget.selected = 0;
    widget.delete_point();
    assert_eq!(widget.points.len(), 5);
    assert_eq!(widget.points[0], CurvePoint { time_min: 0, temp: 100_000 });
    widget.points.truncate(2);
    widget.selected = 1;
    widget.delete_point();
    assert_eq!(widget.points.len(), 2);

    let mut last = CurveWidget::new("Curve", "°C", 20_000, 300_000);
    last.selected = 5;
    last.delete_point();
    assert_eq!(last.selected, 4);
    assert_eq!(last.points.len(), 5);
}

#[test]
fn decrease_time_keeps_one_minute_and_undoes_increase() {
    let mut widget = CurveWidget::new("Curve", "°C", 20_000, 300_000);
    widget.selected = 2;
    let before = widget.points.clone();
    widget.increase_time();
    widget.decrease_time();
    assert_eq!(widget.points, before);

    widget.points[2].time_min = 17 * MIN;
    widget.points[3].time_min = 37 * MIN;
    widget.decrease_time();
    assert_eq!(widget.points[2].time_min, 16 * MIN);
    assert_eq!(widget.points[3].time_min, 36 * MIN);
    widget.decrease_time();
    assert_eq!(widget.points[2].time_min, 16 * MIN);

    widget.selected = 0;
    let before = widget.points.clone();
    widget.increase_time();
    widget.decrease_time();
    assert_eq!(widget.points, before);
}

#[test]
fn set_selected_time_shifts_and_keeps_gap() {
    let mut widget = CurveWidget::new("Curve", "°C", 20_000, 300_000);
    widget.selected = 2;
    widget.set_selected_time(50 * MIN);
    assert_eq!(widget.points[2].time_min, 50 * MIN);
    assert_eq!(widget.points[3].time_min, 70 * MIN);
    assert_eq!(widget.points[1].time_min, 15 * MIN);
    widget.set_selected_time(0);
    assert_eq!(widget.points[2].time_min, 16 * MIN);
    assert_eq!(widget.points[5].time_min, 126 * MIN);
    widget.selected = 0;
    widget.set_selected_time(9 * MIN);
    assert_eq!(widget.points[0].time_min, 0);
}

#[test]
fn temperature_steps_and_limits() {
    let mut widget = CurveWidget::new("Curve", "°C", 20_000, 300_000);
    widget.selected = 3;
    widget.increase_temp();
    assert_eq!(widget.points[3].temp, 205_000);
    widget.selected = 0;
    widget.decrease_temp();
    assert_eq!(widget.points[0].temp, 20_000);
    widget.set_selected_temp(999_000);
    assert_eq!(widget.points[0].temp, 300_000);
    assert_eq!(widget.max_curve_temp(), 300_000);
}

#[test]
fn selection_moves_within_curve() {
    let mut widget = CurveWidget::new("Curve", "°C", 20_000, 300_000);
    widget.prev_point();
    assert_eq!(widget.selected, 0);
    widget.prev_point();
    assert_eq!(widget.selected, 0);
    for _ in 0..10 {
        widget.next_point();
    }
    assert_eq!(widget.selected, 5);
    widget.select();
    assert!(widget.selected_tile);
    widget.deselect();
    assert!(!widget.selected_tile);
}

#[test]
fn interpolation_at_nodes_and_rounding() {
    let widget = CurveWidget::new("Curve", "°C", 20_000, 300_000);
    for p in widget.points.clone() {
        assert_eq!(widget.interpolate_temp(p.time_min), p.temp);
    }
    // 100 -> 200 degrees over 20 minutes: 5 degrees per minute
    assert_eq!(widget.interpolate_temp(55 * MIN), 150_000);
    // cooling 200 -> 30 over 30 minutes
    assert_eq!(widget.interpolate_temp(140 * MIN), 115_000);
    assert_eq!(widget.interpolate_temp(-5 * MIN), 20_000);
    assert_eq!(widget.interpolate_temp(500 * MIN), 30_000);

    let mut empty = CurveWidget::new("Curve", "°C", 20_000, 300_000);
    empty.points.clear();
    assert_eq!(empty.interpolate_temp(1 * MIN), 20_000);
    assert_eq!(empty.total_duration_min(), 0);
    assert_eq!(empty.max_curve_temp(), 20_000);
}

#[test]
fn runner_pause_banks_and_stop_resets() {
    let mut runner = CurveRunner::new();
    assert_eq!(runner.elapsed(), 0);
    runner.start_or_resume();
    assert_eq!(runner.status, RunnerStatus::Running);
    assert!(runner.start_time.is_some());
    runner.pause_after(90_000_000_000);
    assert_eq!(runner.status, RunnerStatus::Paused);
    assert_eq!(runner.elapsed(), 90_000_000_000);
    assert_eq!(runner.elapsed_after(5), 90_000_000_000);
    runner.start_or_resume();
    assert_eq!(runner.elapsed_after(10_000_000_000), 100_000_000_000);
    assert!(runner.elapsed() >= 90_000_000_000);
    runner.mark_finished();
    assert_eq!(runner.status, RunnerStatus::Finished);
    assert_eq!(runner.elapsed(), 0);
    runner.start_or_resume();
    assert_eq!(runner.elapsed_after(7), 7);
    runner.stop();
    assert_eq!(runner.status, RunnerStatus::Idle);
    assert_eq!(runner.elapsed(), 0);
    runner.pause();
    assert_eq!(runner.status, RunnerStatus::Idle);
}

#[test]
fn poll_runner_follows_curve_and_finishes() {
    let mut widget = CurveWidget::new("Curve", "°C", 20_000, 300_000);
    assert_eq!(widget.poll_runner(), None);
    widget.runner.start_or_resume();
    // 55 minutes in: halfway up the 100 -> 200 ramp
    assert_eq!(widget.poll_runner_after(55 * 60_000_000_000), Some(150_000));
    assert_eq!(widget.runner.status, RunnerStatus::Running);
    // past the end: the last point's temperature, and the run is finished
    assert_eq!(widget.poll_runner_after(155 * 60_000_000_000), Some(30_000));
    assert_eq!(widget.runner.status, RunnerStatus::Finished);
    assert_eq!(widget.poll_runner_after(0), None);
    widget.runner.start_or_resume();
    let first = widget.poll_runner();
    assert!(first.is_some());
}

#[test]
fn table_scrolls_to_selection() {
    let mut widget = CurveWidget::new("Curve", "°C", 20_000, 300_000);
    widget.selected = 1;
    assert_eq!(widget.table_start_row(3), 0);
    widget.selected = 5;
    assert_eq!(widget.table_start_row(3), 3);
    assert_eq!(widget.table_start_row(1), 5);
}

#[test]
fn run_time_as_curve_time() {
    assert_eq!(curve_time_of_nanos(0), 0);
    assert_eq!(curve_time_of_nanos(59_999_999), 59_999_999);
    assert_eq!(curve_time_of_nanos(90_000_000_000), MIN + MIN / 2);
    assert_eq!(curve_time_of_nanos(i64::MAX as u128), i64::MAX);
    assert_eq!(curve_time_of_nanos(u128::MAX), i64::MAX);
}

#[test]
fn add_point_keeps_times_increasing() {
    let mut widget = CurveWidget::new("Curve", "°C", 20_000, 300_000);
    for sel in [0usize, 2, 4, 7] {
        widget.selected = sel;
        widget.add_point();
        assert_eq!(widget.selected, sel + 1);
        assert_eq!(widget.points[0].time_min, 0);
        for w in widget.points.windows(2) {
            assert!(w[0].time_min < w[1].time_min);
        }
    }
    // halving the first gap again and again stays strictly between its ends
    // down to a gap of two nanoseconds
    let mut fresh = CurveWidget::new("Curve", "°C", 20_000, 300_000);
    let mut presses: u32 = 0;
    loop {
        fresh.selected = 0;
        let gap = fresh.points[1].time_min - fresh.points[0].time_min;
        fresh.add_point();
        presses += 1;
        if gap < 2 {
            break;
        }
        assert!(fresh.points[0].time_min < fresh.points[1].time_min);
        assert!(fresh.points[1].time_min < fresh.points[2].time_min);
    }
    assert!(presses > 35);
    // one nanosecond apart: the midpoint is the earlier time
    widget.points = vec![
        CurvePoint { time_min: 0, temp: 20_000 },
        CurvePoint { time_min: 1, temp: 30_000 },
    ];
    widget.selected = 0;
    widget.add_point();
    assert_eq!(widget.points[1], CurvePoint { time_min: 0, temp: 25_000 });
}

#[test]
fn time_steps_cancel_for_any_step() {
    let mut widget = CurveWidget::new("Curve", "°C", 20_000, 300_000);
    widget.time_step_min = 7 * MIN;
    widget.selected = 3;
    let before = widget.points.clone();
    widget.increase_time();
    widget.decrease_time();
    assert_eq!(widget.points, before);
    assert_eq!(widget.selected, 3);
}

#[test]
fn clock_readings_follow_the_status() {
    let mut runner = CurveRunner::new();
    runner.start_or_resume();
    let a = runner.elapsed();
    let b = runner.elapsed();
    assert!(a <= b);
    runner.pause();
    let banked = runner.elapsed();
    assert!(banked >= a);
    assert_eq!(runner.elapsed(), banked);
    runner.toggle_run_pause();
    assert_eq!(runner.status, RunnerStatus::Running);
    assert!(runner.elapsed() >= banked);
    assert_eq!(runner.elapsed_after(20) - runner.elapsed_after(5), 15);
    runner.toggle_run_pause();
    assert_eq!(runner.status, RunnerStatus::Paused);
    assert!(runner.elapsed() >= banked);
}

#[test]
fn poll_runner_gives_the_curve_target() {
    let mut widget = CurveWidget::new("Curve", "°C", 20_000, 300_000);
    widget.runner.start_or_resume();
    // a fresh run reads the curve near its start: within a degree of the
    // first point on the 20 -> 100 degree warm-up
    let t = widget.poll_runner().unwrap();
    assert!(20_000 <= t && t < 21_000);
    assert_eq!(widget.runner.status, RunnerStatus::Running);
}
