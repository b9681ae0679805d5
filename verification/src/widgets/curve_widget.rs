use vstd::prelude::*;

use std::time::{Duration, Instant};

use crate::fixed::{clamp, clamp_i64, max_i64, min_i64, sat_add, sat_i64, sat_sub};
use crate::widgets::control_widget::{stepped_down, stepped_up};

verus! {

/// `std::time::Instant`, a reading of the monotonic clock; opaque here.
#[verifier::external_type_specification]
#[verifier::external_body]
pub struct ExInstant(std::time::Instant);

/// Calls `Instant::now`. The reading depends on the clock, so nothing is
/// promised of it.
#[verifier::external_body]
fn clock_now() -> (r: Instant) {
    Instant::now()
}

/// Largest number of nanoseconds a `std::time::Duration` can hold.
pub open spec fn max_duration_nanos() -> int {
    u64::MAX as int * 1_000_000_000 + 999_999_999
}

/// Calls `Instant::elapsed` on `start`: the time since `start` by the clock
/// (zero if the clock reads earlier). The value depends on the clock, so
/// nothing is promised of it.
#[verifier::external_body]
fn time_since(start: &Instant) -> (r: Duration) {
    start.elapsed()
}

/// Calls `Duration::as_nanos`: the whole nanoseconds in `d`. A `Duration`
/// holds at most `u64::MAX` seconds and 999,999,999 nanoseconds, so the
/// number is at most [`max_duration_nanos`]; the value itself is not named,
/// as a `Duration` is opaque here.
#[verifier::external_body]
fn whole_nanos(d: &Duration) -> (r: u128)
    ensures
        r <= max_duration_nanos(),
{
    d.as_nanos()
}

/// State of the heating-curve runner.
#[derive(Debug, Clone, Copy, PartialEq, Eq, Structural)]
pub enum RunnerStatus {
    Idle,
    Running,
    Paused,
    Finished,
}

/// The status that a run/pause toggle leads to.
pub open spec fn toggled_status(s: RunnerStatus) -> RunnerStatus {
    match s {
        RunnerStatus::Running => RunnerStatus::Paused,
        _ => RunnerStatus::Running,
    }
}

/// The runner after a pause when its current leg ran `since_start`
/// nanoseconds: a running runner becomes paused with no leg under way and the
/// leg banked (saturating at `u128::MAX`); any other runner is left alone.
pub open spec fn paused_runner(r: CurveRunner, since_start: u128) -> CurveRunner {
    if r.status == RunnerStatus::Running {
        CurveRunner {
            status: RunnerStatus::Paused,
            start_time: None,
            elapsed_before_pause: if r.start_time is Some {
                r.elapsed_before_pause.saturating_add(since_start)
            } else {
                r.elapsed_before_pause
            },
        }
    } else {
        r
    }
}

/// The runner after starting or resuming with a leg that starts at `t`: a
/// running runner is left alone; a paused one runs again with its banked
/// time; an idle or finished one starts afresh with nothing banked.
pub open spec fn resumed_runner(r: CurveRunner, t: Instant) -> CurveRunner {
    match r.status {
        RunnerStatus::Running => r,
        RunnerStatus::Paused => CurveRunner {
            status: RunnerStatus::Running,
            start_time: Some(t),
            elapsed_before_pause: r.elapsed_before_pause,
        },
        _ => CurveRunner { status: RunnerStatus::Running, start_time: Some(t), elapsed_before_pause: 0 },
    }
}

/// Runs a heating curve against the wall clock without blocking: it keeps the
/// instant the current run leg started and the time banked by earlier legs
/// (in nanoseconds).
#[derive(Debug, Clone)]
pub struct CurveRunner {
    pub status: RunnerStatus,
    pub start_time: Option<Instant>,
    pub elapsed_before_pause: u128,
}

impl CurveRunner {
    /// Nanoseconds banked by run legs that ended in a pause.
    pub open spec fn banked(&self) -> u128 {
        self.elapsed_before_pause
    }

    /// A run leg is under way, started at a clock reading.
    pub open spec fn leg_started(&self) -> bool {
        self.start_time is Some
    }

    /// An idle runner with nothing banked.
    pub fn new() -> (r: Self)
        ensures
            r.status == RunnerStatus::Idle,
            r.banked() == 0,
            !r.leg_started(),
    {
        CurveRunner { status: RunnerStatus::Idle, start_time: None, elapsed_before_pause: 0 }
    }

    /// Starts a fresh run from Idle or Finished (banked time reset), resumes
    /// from Paused (banked time kept), and leaves a running runner alone.
    pub fn start_or_resume(&mut self)
        ensures
            final(self).status == RunnerStatus::Running,
            old(self).status == RunnerStatus::Running ==> *final(self) == *old(self),
            old(self).status != RunnerStatus::Running ==> final(self).leg_started(),
            old(self).status == RunnerStatus::Paused ==> final(self).banked() == old(self).banked(),
            (old(self).status == RunnerStatus::Idle || old(self).status == RunnerStatus::Finished)
                ==> final(self).banked() == 0,
            exists|t: Instant| *final(self) == resumed_runner(*old(self), t),
    {
        match self.status {
            RunnerStatus::Idle | RunnerStatus::Finished => {
                let t = clock_now();
                self.start_time = Some(t);
                self.elapsed_before_pause = 0;
                self.status = RunnerStatus::Running;
                assert(*self == resumed_runner(*old(self), t));
            },
            RunnerStatus::Paused => {
                let t = clock_now();
                self.start_time = Some(t);
                self.status = RunnerStatus::Running;
                assert(*self == resumed_runner(*old(self), t));
            },
            RunnerStatus::Running => {
                let ghost t: Instant = vstd::pervasive::arbitrary();
                assert(*self == resumed_runner(*old(self), t));
            },
        }
    }

    /// Pauses a running runner, banking `since_start` nanoseconds for the leg
    /// that ends (saturating at `u128::MAX`); other states are left alone.
    /// `since_start` is how long the current leg has run.
    pub fn pause_after(&mut self, since_start: u128)
        ensures
            old(self).status == RunnerStatus::Running ==> {
                &&& final(self).status == RunnerStatus::Paused
                &&& !final(self).leg_started()
                &&& final(self).banked() == if old(self).leg_started() {
                    old(self).banked().saturating_add(since_start)
                } else {
                    old(self).banked()
                }
            },
            old(self).status != RunnerStatus::Running ==> *final(self) == *old(self),
            *final(self) == paused_runner(*old(self), since_start),
    {
        if self.status == RunnerStatus::Running {
            if self.start_time.is_some() {
                self.elapsed_before_pause = self.elapsed_before_pause.saturating_add(since_start);
            }
            self.start_time = None;
            self.status = RunnerStatus::Paused;
        }
    }

    /// Pauses a running runner, banking the time its current leg has run
    /// (read from the clock); other states are left alone.
    pub fn pause(&mut self)
        ensures
            old(self).status == RunnerStatus::Running ==> {
                &&& final(self).status == RunnerStatus::Paused
                &&& !final(self).leg_started()
                &&& final(self).banked() >= old(self).banked()
            },
            old(self).status != RunnerStatus::Running ==> *final(self) == *old(self),
            exists|s: u128| s <= max_duration_nanos() && *final(self) == paused_runner(*old(self), s),
    {
        let since = self.leg_nanos();
        self.pause_after(since);
    }

    /// Pauses when running, else starts or resumes.
    pub fn toggle_run_pause(&mut self)
        ensures
            final(self).status == toggled_status(old(self).status),
            old(self).status == RunnerStatus::Running ==> {
                &&& !final(self).leg_started()
                &&& final(self).banked() >= old(self).banked()
            },
            old(self).status == RunnerStatus::Paused ==> {
                &&& final(self).leg_started()
                &&& final(self).banked() == old(self).banked()
            },
            (old(self).status == RunnerStatus::Idle || old(self).status == RunnerStatus::Finished)
                ==> final(self).leg_started() && final(self).banked() == 0,
            old(self).status == RunnerStatus::Running ==> exists|s: u128|
                s <= max_duration_nanos() && *final(self) == paused_runner(*old(self), s),
            old(self).status != RunnerStatus::Running ==> exists|t: Instant|
                *final(self) == resumed_runner(*old(self), t),
    {
        match self.status {
            RunnerStatus::Running => self.pause(),
            RunnerStatus::Idle | RunnerStatus::Paused | RunnerStatus::Finished => {
                self.start_or_resume()
            },
        }
    }

    /// Back to Idle with nothing banked.
    pub fn stop(&mut self)
        ensures
            final(self).status == RunnerStatus::Idle,
            final(self).banked() == 0,
            !final(self).leg_started(),
    {
        self.status = RunnerStatus::Idle;
        self.start_time = None;
        self.elapsed_before_pause = 0;
    }

    /// Run time in nanoseconds when the current leg has run `since_start`
    /// nanoseconds (see [`CurveRunner::elapsed_after`]).
    pub open spec fn elapsed_after_spec(&self, since_start: u128) -> u128 {
        match self.status {
            RunnerStatus::Running => if self.leg_started() {
                self.banked().saturating_add(since_start)
            } else {
                self.banked()
            },
            RunnerStatus::Paused => self.banked(),
            _ => 0,
        }
    }

    /// Nanoseconds the current leg has run, read from the clock; zero when
    /// not running or no leg is under way. While a leg runs, the value is
    /// whatever the clock reports, within what a `Duration` can hold; zero is
    /// one such value.
    pub fn leg_nanos(&self) -> (r: u128)
        ensures
            self.status != RunnerStatus::Running || !self.leg_started() ==> r == 0,
            r <= max_duration_nanos(),
    {
        match &self.start_time {
            Some(start) => if self.status == RunnerStatus::Running {
                let d = time_since(start);
                whole_nanos(&d)
            } else {
                0
            },
            None => 0,
        }
    }

    /// Run time in nanoseconds when the current leg has run `since_start`
    /// nanoseconds: banked plus the leg while running, the banked time while
    /// paused, zero when idle or finished.
    pub fn elapsed_after(&self, since_start: u128) -> (r: u128)
        ensures
            r == self.elapsed_after_spec(since_start),
    {
        match self.status {
            RunnerStatus::Running => {
                let current = if self.start_time.is_some() {
                    since_start
                } else {
                    0
                };
                self.elapsed_before_pause.saturating_add(current)
            },
            RunnerStatus::Paused => self.elapsed_before_pause,
            RunnerStatus::Idle | RunnerStatus::Finished => 0,
        }
    }

    /// Run time in nanoseconds, reading the clock while running.
    pub fn elapsed(&self) -> (r: u128)
        ensures
            self.status == RunnerStatus::Running ==> r >= self.banked(),
            self.status == RunnerStatus::Paused ==> r == self.banked(),
            (self.status == RunnerStatus::Idle || self.status == RunnerStatus::Finished) ==> r == 0,
            exists|s: u128| s <= max_duration_nanos() && r == self.elapsed_after_spec(s),
    {
        let since = self.leg_nanos();
        self.elapsed_after(since)
    }

    /// Marks the curve as done; the banked time is kept.
    pub fn mark_finished(&mut self)
        ensures
            *final(self) == finished_runner(*old(self)),
    {
        self.status = RunnerStatus::Finished;
        self.start_time = None;
    }
}

impl Default for CurveRunner {
    fn default() -> (r: Self)
        ensures
            r.status == RunnerStatus::Idle,
            r.banked() == 0,
            !r.leg_started(),
    {
        Self::new()
    }
}

/// The runner marked finished: no leg under way, banked time kept.
pub open spec fn finished_runner(r: CurveRunner) -> CurveRunner {
    CurveRunner {
        status: RunnerStatus::Finished,
        start_time: None,
        elapsed_before_pause: r.elapsed_before_pause,
    }
}

/// Toggling twice from a stopped or paused runner leaves it paused; from a
/// running one it is running again.
pub proof fn lemma_toggle_twice(s: RunnerStatus)
    ensures
        s != RunnerStatus::Running ==> toggled_status(toggled_status(s)) == RunnerStatus::Paused,
        s == RunnerStatus::Running ==> toggled_status(toggled_status(s)) == RunnerStatus::Running,
        toggled_status(s) != s,
{
}


/// One node of a heating curve: a time in nanoseconds from the start (the
/// resolution of the clock the curve is run against) and a target
/// temperature in thousandths of a degree.
#[derive(Debug, Clone, Copy, PartialEq, Eq, Structural)]
pub struct CurvePoint {
    pub time_min: i64,
    pub temp: i64,
}

/// The curve a new editor starts with: warm up, soak, ramp up, soak, cool.
pub open spec fn default_curve() -> Seq<CurvePoint> {
    seq![
        CurvePoint { time_min: 0, temp: 20_000 },
        CurvePoint { time_min: 900_000_000_000, temp: 100_000 },
        CurvePoint { time_min: 2_700_000_000_000, temp: 100_000 },
        CurvePoint { time_min: 3_900_000_000_000, temp: 200_000 },
        CurvePoint { time_min: 7_500_000_000_000, temp: 200_000 },
        CurvePoint { time_min: 9_300_000_000_000, temp: 30_000 },
    ]
}

/// One minute in nanoseconds, the unit of curve times.
pub open spec fn minute() -> int {
    60_000_000_000
}

/// Smallest gap kept before a moved point: one minute.
pub open spec fn min_gap() -> int {
    minute()
}

/// Time added after the last point when a point is appended: fifteen minutes.
pub open spec fn append_gap() -> int {
    15 * minute()
}

/// The curve with point `i` given temperature `temp`.
pub open spec fn with_temp(pts: Seq<CurvePoint>, i: int, temp: int) -> Seq<CurvePoint> {
    pts.update(i, CurvePoint { time_min: pts[i].time_min, temp: temp as i64 })
}

/// The curve with every point from index `from` on moved by `delta`
/// (each time held to the range of `i64`).
pub open spec fn shift_from(pts: Seq<CurvePoint>, from: int, delta: int) -> Seq<CurvePoint> {
    Seq::new(
        pts.len(),
        |j: int|
            if j >= from {
                CurvePoint { time_min: sat_i64(pts[j].time_min + delta) as i64, temp: pts[j].temp }
            } else {
                pts[j]
            },
    )
}

/// Selection after stepping to the next point.
pub open spec fn next_selected(len: int, sel: int) -> int {
    if sel + 1 < len {
        sel + 1
    } else {
        sel
    }
}

/// Selection after stepping to the previous point.
pub open spec fn prev_selected(sel: int) -> int {
    if sel > 0 {
        sel - 1
    } else {
        sel
    }
}

/// The curve after asking that point `sel` sit at time `t`: the point is put
/// at `t`, but at least one minute after its predecessor, and every later
/// point moves with it. The first point, and a selection past the end, are
/// left alone.
pub open spec fn time_set_curve(pts: Seq<CurvePoint>, sel: int, t: int) -> Seq<CurvePoint> {
    if sel == 0 || sel >= pts.len() {
        pts
    } else {
        let min_allowed = pts[sel - 1].time_min + min_gap();
        let target = if t >= min_allowed {
            t
        } else {
            min_allowed
        };
        shift_from(pts, sel, target - pts[sel].time_min)
    }
}

/// The curve after lengthening the segment before point `sel` by `step`.
pub open spec fn time_increased_curve(pts: Seq<CurvePoint>, sel: int, step: int) -> Seq<CurvePoint> {
    if sel == 0 || sel >= pts.len() {
        pts
    } else {
        shift_from(pts, sel, step)
    }
}

/// How far the segment before point `sel` is shortened: by `step`, but never
/// below one minute.
pub open spec fn time_reduction(pts: Seq<CurvePoint>, sel: int, step: int) -> int {
    let room = pts[sel].time_min - (pts[sel - 1].time_min + min_gap());
    let max_reduction = if room > 0 {
        room
    } else {
        0
    };
    if step <= max_reduction {
        step
    } else {
        max_reduction
    }
}

/// The curve after shortening the segment before point `sel` by `step`
/// (never below one minute).
pub open spec fn time_decreased_curve(pts: Seq<CurvePoint>, sel: int, step: int) -> Seq<CurvePoint> {
    if sel == 0 || sel >= pts.len() {
        pts
    } else {
        let delta = time_reduction(pts, sel, step);
        if delta > 0 {
            shift_from(pts, sel, -delta)
        } else {
            pts
        }
    }
}

/// The point appended after `last`: fifteen minutes later, same temperature.
pub open spec fn appended_point(last: CurvePoint) -> CurvePoint {
    CurvePoint { time_min: sat_i64(last.time_min + append_gap()) as i64, temp: last.temp }
}

/// The point inserted halfway between `p0` and `p1` (the time rounded down
/// to a nanosecond, the temperature to a thousandth of a degree).
pub open spec fn midpoint(p0: CurvePoint, p1: CurvePoint) -> CurvePoint {
    CurvePoint {
        time_min: ((p0.time_min + p1.time_min) / 2) as i64,
        temp: ((p0.temp + p1.temp) / 2) as i64,
    }
}

/// The curve and selection after adding a point: a 20 degree start point on
/// an empty curve; after the last point when it (or nothing valid) is
/// selected; else halfway between the selected point and the next. The new
/// point becomes the selection.
pub open spec fn added_curve(pts: Seq<CurvePoint>, sel: int) -> (Seq<CurvePoint>, int) {
    if pts.len() == 0 {
        (seq![CurvePoint { time_min: 0, temp: 20_000 }], 0)
    } else if sel + 1 >= pts.len() {
        (pts.push(appended_point(pts.last())), pts.len() as int)
    } else {
        (pts.insert(sel + 1, midpoint(pts[sel], pts[sel + 1])), sel + 1)
    }
}

/// The curve and selection after deleting the selected point. A curve of two
/// points or fewer is kept. The selection falls back to the last point when
/// it runs off the end, and a curve whose first point is selected afterwards
/// starts at time zero.
pub open spec fn deleted_curve(pts: Seq<CurvePoint>, sel: int) -> (Seq<CurvePoint>, int) {
    if pts.len() <= 2 {
        (pts, sel)
    } else {
        let r = pts.remove(sel);
        let s = if sel >= r.len() {
            r.len() - 1
        } else {
            sel
        };
        if s == 0 {
            (r.update(0, CurvePoint { time_min: 0, temp: r[0].temp }), s)
        } else {
            (r, s)
        }
    }
}

/// Temperature at time `t` on the straight segment from `p0` to `p1`, rounded
/// toward `p0`'s temperature; `p1`'s temperature when both share a time.
pub open spec fn lerp(p0: CurvePoint, p1: CurvePoint, t: int) -> int {
    let dt = p1.time_min - p0.time_min;
    if dt == 0 {
        p1.temp as int
    } else if p1.temp >= p0.temp {
        p0.temp + ((p1.temp - p0.temp) * (t - p0.time_min)) / dt
    } else {
        p0.temp - ((p0.temp - p1.temp) * (t - p0.time_min)) / dt
    }
}

/// Interpolated temperature on the first segment, from index `i` on, whose
/// time span holds `t`; the last point's temperature when none does.
pub open spec fn scan_segments(pts: Seq<CurvePoint>, i: int, t: int) -> int
    decreases pts.len() - i,
{
    if i < 0 || i + 1 >= pts.len() {
        pts.last().temp as int
    } else if pts[i].time_min <= t <= pts[i + 1].time_min {
        lerp(pts[i], pts[i + 1], t)
    } else {
        scan_segments(pts, i + 1, t)
    }
}

/// Target temperature of the curve at time `t`: `min_temp` for an empty
/// curve, the first point's temperature up to its time, the last point's from
/// its time on, and in between the straight line through the first segment
/// holding `t`.
pub open spec fn curve_temp_at(pts: Seq<CurvePoint>, min_temp: int, t: int) -> int {
    if pts.len() == 0 {
        min_temp
    } else if t <= pts[0].time_min {
        pts[0].temp as int
    } else if t >= pts.last().time_min {
        pts.last().temp as int
    } else {
        scan_segments(pts, 0, t)
    }
}

/// Length of the curve in nanoseconds: the last point's time.
pub open spec fn curve_duration(pts: Seq<CurvePoint>) -> int {
    if pts.len() == 0 {
        0
    } else {
        pts.last().time_min as int
    }
}

/// A run time of `nanos` nanoseconds as a curve time: the same number,
/// held to `i64` (some 292 years).
pub open spec fn nanos_to_curve_time(nanos: int) -> int {
    if nanos > i64::MAX {
        i64::MAX as int
    } else {
        nanos
    }
}

/// The editor and the target temperature after one poll of the runner, when
/// the running leg has run `since_start` nanoseconds: nothing unless
/// running; once the run time reaches the
/// curve's length the runner is finished and the last point's temperature
/// comes out; before that, the curve's temperature at the run time.
pub open spec fn polled(c: CurveView, since_start: u128) -> (CurveView, Option<i64>) {
    if c.runner.status != RunnerStatus::Running {
        (c, None)
    } else {
        let t = nanos_to_curve_time(c.runner.elapsed_after_spec(since_start) as int);
        if t >= curve_duration(c.points) {
            (
                CurveView { runner: finished_runner(c.runner), ..c },
                if c.points.len() == 0 {
                    None
                } else {
                    Some(c.points.last().temp)
                },
            )
        } else {
            (c, Some(curve_temp_at(c.points, c.min_temp as int, t) as i64))
        }
    }
}

/// A run time in nanoseconds as a curve time (see [`nanos_to_curve_time`]).
pub fn curve_time_of_nanos(nanos: u128) -> (r: i64)
    ensures
        r == nanos_to_curve_time(nanos as int),
{
    if nanos > i64::MAX as u128 {
        i64::MAX
    } else {
        nanos as i64
    }
}

/// The heating-curve editor: the curve, the selected point and the runner
/// that plays the curve back.
pub struct CurveWidget {
    pub title: String,
    pub unit: String,
    pub min_temp: i64,
    pub max_temp: i64,
    pub points: Vec<CurvePoint>,
    pub selected: usize,
    pub selected_tile: bool,
    pub runner: CurveRunner,
    pub temp_step: i64,
    pub time_step_min: i64,
}

/// The plain values a [`CurveWidget`] holds (the runner as it is).
pub struct CurveView {
    pub title: Seq<char>,
    pub unit: Seq<char>,
    pub min_temp: i64,
    pub max_temp: i64,
    pub points: Seq<CurvePoint>,
    pub selected: usize,
    pub selected_tile: bool,
    pub runner: CurveRunner,
    pub temp_step: i64,
    pub time_step_min: i64,
}

impl View for CurveWidget {
    type V = CurveView;

    open spec fn view(&self) -> CurveView {
        CurveView {
            title: self.title@,
            unit: self.unit@,
            min_temp: self.min_temp,
            max_temp: self.max_temp,
            points: self.points@,
            selected: self.selected,
            selected_tile: self.selected_tile,
            runner: self.runner,
            temp_step: self.temp_step,
            time_step_min: self.time_step_min,
        }
    }
}

/// The editor with its tile highlighted or not.
pub open spec fn curve_tile(c: CurveView, on: bool) -> CurveView {
    CurveView { selected_tile: on, ..c }
}

/// The editor after stepping to the next point.
pub open spec fn curve_next(c: CurveView) -> CurveView {
    CurveView { selected: next_selected(c.points.len() as int, c.selected as int) as usize, ..c }
}

/// The editor after stepping to the previous point.
pub open spec fn curve_prev(c: CurveView) -> CurveView {
    CurveView { selected: prev_selected(c.selected as int) as usize, ..c }
}

/// The editor with the selected point's temperature set to `temp`, when a
/// point is selected.
pub open spec fn curve_with_selected_temp(c: CurveView, temp: int) -> CurveView {
    CurveView {
        points: if c.selected < c.points.len() {
            with_temp(c.points, c.selected as int, temp)
        } else {
            c.points
        },
        ..c
    }
}

/// The editor after raising the selected temperature by one step.
pub open spec fn curve_temp_up(c: CurveView) -> CurveView {
    curve_with_selected_temp(
        c,
        stepped_up(c.points[c.selected as int].temp as int, c.temp_step as int, c.max_temp as int),
    )
}

/// The editor after lowering the selected temperature by one step.
pub open spec fn curve_temp_down(c: CurveView) -> CurveView {
    curve_with_selected_temp(
        c,
        stepped_down(c.points[c.selected as int].temp as int, c.temp_step as int, c.min_temp as int),
    )
}

/// The editor with the selected temperature set to `temp` within limits.
pub open spec fn curve_temp_set(c: CurveView, temp: int) -> CurveView {
    curve_with_selected_temp(c, clamp(temp, c.min_temp as int, c.max_temp as int))
}

/// The editor after asking the selected point to sit at time `t`.
pub open spec fn curve_time_set(c: CurveView, t: int) -> CurveView {
    CurveView { points: time_set_curve(c.points, c.selected as int, t), ..c }
}

/// The editor after lengthening the segment before the selection.
pub open spec fn curve_time_up(c: CurveView) -> CurveView {
    CurveView {
        points: time_increased_curve(c.points, c.selected as int, c.time_step_min as int),
        ..c
    }
}

/// The editor after shortening the segment before the selection.
pub open spec fn curve_time_down(c: CurveView) -> CurveView {
    CurveView {
        points: time_decreased_curve(c.points, c.selected as int, c.time_step_min as int),
        ..c
    }
}

/// The editor after adding a point.
pub open spec fn curve_added(c: CurveView) -> CurveView {
    CurveView {
        points: added_curve(c.points, c.selected as int).0,
        selected: added_curve(c.points, c.selected as int).1 as usize,
        ..c
    }
}

/// The editor after deleting the selected point.
pub open spec fn curve_deleted(c: CurveView) -> CurveView {
    CurveView {
        points: deleted_curve(c.points, c.selected as int).0,
        selected: deleted_curve(c.points, c.selected as int).1 as usize,
        ..c
    }
}

impl CurveWidget {
    /// A curve editor with the default curve, its second point selected, an
    /// idle runner, 5 degree and 5 minute steps.
    pub fn new(title: &str, unit: &str, min_temp: i64, max_temp: i64) -> (w: Self)
        ensures
            w.title@ == title@,
            w.unit@ == unit@,
            w.min_temp == min_temp,
            w.max_temp == max_temp,
            w.points@ == default_curve(),
            w.selected == 1,
            !w.selected_tile,
            w.runner.status == RunnerStatus::Idle,
            w.runner.banked() == 0,
            !w.runner.leg_started(),
            w.temp_step == 5000,
            w.time_step_min == 5 * minute(),
    {
        let default_points = vec![
            CurvePoint { time_min: 0, temp: 20_000 },
            CurvePoint { time_min: 900_000_000_000, temp: 100_000 },
            CurvePoint { time_min: 2_700_000_000_000, temp: 100_000 },
            CurvePoint { time_min: 3_900_000_000_000, temp: 200_000 },
            CurvePoint { time_min: 7_500_000_000_000, temp: 200_000 },
            CurvePoint { time_min: 9_300_000_000_000, temp: 30_000 },
        ];
        let w = CurveWidget {
            title: String::from_str(title),
            unit: String::from_str(unit),
            min_temp,
            max_temp,
            points: default_points,
            selected: 1,
            selected_tile: false,
            runner: CurveRunner::new(),
            temp_step: 5000,
            time_step_min: 300_000_000_000,
        };
        proof {
            assert(w.points@ =~= default_curve());
        }
        w
    }

    /// Highlights the tile.
    pub fn select(&mut self)
        ensures
            final(self)@ == curve_tile(old(self)@, true),
    {
        self.selected_tile = true;
    }

    /// Removes the highlight.
    pub fn deselect(&mut self)
        ensures
            final(self)@ == curve_tile(old(self)@, false),
    {
        self.selected_tile = false;
    }

    /// Selects the next point, if there is one.
    pub fn next_point(&mut self)
        ensures
            final(self)@ == curve_next(old(self)@),
    {
        if self.points.len() > 0 && self.selected < self.points.len() - 1 {
            self.selected += 1;
        }
    }

    /// Selects the previous point, if there is one.
    pub fn prev_point(&mut self)
        ensures
            final(self)@ == curve_prev(old(self)@),
    {
        if self.selected > 0 {
            self.selected -= 1;
        }
    }

    /// Raises the selected point's temperature by one step, capped at
    /// `max_temp`.
    pub fn increase_temp(&mut self)
        ensures
            final(self)@ == curve_temp_up(old(self)@),
    {
        if self.selected < self.points.len() {
            let p = self.points[self.selected];
            let t = min_i64(sat_add(p.temp, self.temp_step), self.max_temp);
            self.points.set(self.selected, CurvePoint { time_min: p.time_min, temp: t });
        }
    }

    /// Lowers the selected point's temperature by one step, raised to
    /// `min_temp`.
    pub fn decrease_temp(&mut self)
        ensures
            final(self)@ == curve_temp_down(old(self)@),
    {
        if self.selected < self.points.len() {
            let p = self.points[self.selected];
            let t = max_i64(sat_sub(p.temp, self.temp_step), self.min_temp);
            self.points.set(self.selected, CurvePoint { time_min: p.time_min, temp: t });
        }
    }

    /// Sets the selected point's temperature to `temp` held to
    /// `[min_temp, max_temp]`.
    pub fn set_selected_temp(&mut self, temp: i64)
        requires
            old(self).min_temp <= old(self).max_temp,
        ensures
            final(self)@ == curve_temp_set(old(self)@, temp as int),
    {
        if self.selected < self.points.len() {
            let p = self.points[self.selected];
            let t = clamp_i64(temp, self.min_temp, self.max_temp);
            self.points.set(self.selected, CurvePoint { time_min: p.time_min, temp: t });
        }
    }

    /// Moves every point from `from` on by `delta`.
    fn shift_points_from(&mut self, from: usize, delta: i128)
        requires
            from <= old(self).points@.len(),
            -0x4_0000_0000_0000_0000i128 <= delta <= 0x4_0000_0000_0000_0000i128,
        ensures
            final(self)@ == (CurveView {
                points: shift_from(old(self).points@, from as int, delta as int),
                ..old(self)@
            }),
    {
        let len = self.points.len();
        let mut i = from;
        while i < len
            invariant
                from <= i <= len,
                len == self.points@.len(),
                len == old(self).points@.len(),
                -0x4_0000_0000_0000_0000i128 <= delta <= 0x4_0000_0000_0000_0000i128,
                forall|j: int|
                    0 <= j < len ==> #[trigger] self.points@[j] == if from <= j < i {
                        shift_from(old(self).points@, from as int, delta as int)[j]
                    } else {
                        old(self).points@[j]
                    },
                self@ == (CurveView { points: self@.points, ..old(self)@ }),
            decreases len - i,
        {
            let p = self.points[i];
            let s: i128 = p.time_min as i128 + delta;
            let t: i64 = if s > i64::MAX as i128 {
                i64::MAX
            } else if s < i64::MIN as i128 {
                i64::MIN
            } else {
                s as i64
            };
            self.points.set(i, CurvePoint { time_min: t, temp: p.temp });
            i = i + 1;
        }
        proof {
            assert(self.points@ =~= shift_from(old(self).points@, from as int, delta as int));
        }
    }

    /// Asks that the selected point sit at time `time_min`: it goes there, but
    /// at least one minute after its predecessor, and all later points move
    /// with it so their segment lengths stay. The first point stays at zero.
    pub fn set_selected_time(&mut self, time_min: i64)
        ensures
            final(self)@ == curve_time_set(old(self)@, time_min as int),
    {
        if self.selected == 0 {
            return;
        }
        if self.selected < self.points.len() {
            let min_allowed: i128 = self.points[self.selected - 1].time_min as i128 + 60_000_000_000;
            let target: i128 = if time_min as i128 >= min_allowed {
                time_min as i128
            } else {
                min_allowed
            };
            let delta: i128 = target - self.points[self.selected].time_min as i128;
            self.shift_points_from(self.selected, delta);
        }
    }

    /// Lengthens the segment before the selected point by one time step,
    /// moving it and all later points.
    pub fn increase_time(&mut self)
        ensures
            final(self)@ == curve_time_up(old(self)@),
    {
        if self.selected == 0 || self.selected >= self.points.len() {
            return;
        }
        let delta = self.time_step_min as i128;
        self.shift_points_from(self.selected, delta);
    }

    /// Shortens the segment before the selected point by one time step, but
    /// not below one minute, moving it and all later points.
    pub fn decrease_time(&mut self)
        ensures
            final(self)@ == curve_time_down(old(self)@),
    {
        if self.selected == 0 || self.selected >= self.points.len() {
            return;
        }
        let prev_time = self.points[self.selected - 1].time_min as i128;
        let current_time = self.points[self.selected].time_min as i128;
        let room = current_time - (prev_time + 60_000_000_000);
        let max_reduction: i128 = if room > 0 {
            room
        } else {
            0
        };
        let step = self.time_step_min as i128;
        let delta: i128 = if step <= max_reduction {
            step
        } else {
            max_reduction
        };
        if delta > 0 {
            self.shift_points_from(self.selected, -delta);
        }
    }

    /// Adds a point after the selected one (see [`added_curve`]) and selects
    /// it.
    pub fn add_point(&mut self)
        ensures
            final(self)@ == curve_added(old(self)@),
    {
        if self.points.len() == 0 {
            self.points.push(CurvePoint { time_min: 0, temp: 20_000 });
            self.selected = 0;
            proof {
                assert(self.points@ =~= seq![CurvePoint { time_min: 0, temp: 20_000 }]);
            }
            return;
        }
        if self.selected >= self.points.len() - 1 {
            let last = self.points[self.points.len() - 1];
            let new_point = CurvePoint { time_min: sat_add(last.time_min, 900_000_000_000), temp: last.temp };
            self.points.push(new_point);
            self.selected = self.points.len() - 1;
        } else {
            let p0 = self.points[self.selected];
            let p1 = self.points[self.selected + 1];
            let mid_time = mid_i64(p0.time_min, p1.time_min);
            let mid_temp = mid_i64(p0.temp, p1.temp);
            self.points.insert(self.selected + 1, CurvePoint { time_min: mid_time, temp: mid_temp });
            self.selected += 1;
        }
    }

    /// Deletes the selected point unless only two remain (see
    /// [`deleted_curve`]).
    pub fn delete_point(&mut self)
        requires
            old(self).points@.len() <= 2 || old(self).selected < old(self).points@.len(),
        ensures
            final(self)@ == curve_deleted(old(self)@),
    {
        if self.points.len() <= 2 {
            return;
        }
        self.points.remove(self.selected);
        if self.selected >= self.points.len() {
            self.selected = self.points.len() - 1;
        }
        if self.selected == 0 {
            let p = self.points[0];
            self.points.set(0, CurvePoint { time_min: 0, temp: p.temp });
        }
    }

    /// Length of the curve: the last point's time, zero for no points.
    pub fn total_duration_min(&self) -> (r: i64)
        ensures
            r == curve_duration(self.points@),
    {
        if self.points.len() == 0 {
            0
        } else {
            self.points[self.points.len() - 1].time_min
        }
    }

    /// Target temperature of the curve at `time_min` (see [`curve_temp_at`]).
    pub fn interpolate_temp(&self, time_min: i64) -> (r: i64)
        ensures
            r == curve_temp_at(self.points@, self.min_temp as int, time_min as int),
    {
        let len = self.points.len();
        if len == 0 {
            return self.min_temp;
        }
        if time_min <= self.points[0].time_min {
            return self.points[0].temp;
        }
        if time_min >= self.points[len - 1].time_min {
            return self.points[len - 1].temp;
        }
        let mut i: usize = 0;
        while i + 1 < len
            invariant
                len == self.points@.len(),
                len > 0,
                i < len,
                time_min > self.points@[0].time_min,
                time_min < self.points@[len - 1].time_min,
                scan_segments(self.points@, 0, time_min as int) == scan_segments(
                    self.points@,
                    i as int,
                    time_min as int,
                ),
            decreases len - i,
        {
            let p0 = self.points[i];
            let p1 = self.points[i + 1];
            if time_min >= p0.time_min && time_min <= p1.time_min {
                assert(scan_segments(self.points@, i as int, time_min as int) == lerp(
                    p0,
                    p1,
                    time_min as int,
                ));
                return lerp_exec(p0, p1, time_min);
            }
            i = i + 1;
        }
        self.points[len - 1].temp
    }

    /// One poll of the runner, given that the running leg has run
    /// `since_start` nanoseconds: nothing unless running; once the run time
    /// reaches the curve's length the runner is marked finished and the last
    /// point's temperature is returned, else the curve's temperature at the
    /// run time.
    pub fn poll_runner_after(&mut self, since_start: u128) -> (r: Option<i64>)
        ensures
            (final(self)@, r) == polled(old(self)@, since_start),
    {
        if self.runner.status != RunnerStatus::Running {
            return None;
        }
        let elapsed = self.runner.elapsed_after(since_start);
        let t = curve_time_of_nanos(elapsed);
        let total = self.total_duration_min();
        if t >= total {
            self.runner.mark_finished();
            if self.points.len() == 0 {
                return None;
            } else {
                return Some(self.points[self.points.len() - 1].temp);
            }
        }
        Some(self.interpolate_temp(t))
    }

    /// One poll of the runner against the clock (see
    /// [`CurveWidget::poll_runner_after`]): `None` unless running, else the
    /// target temperature for now.
    pub fn poll_runner(&mut self) -> (r: Option<i64>)
        ensures
            old(self).runner.status != RunnerStatus::Running ==> r is None && final(self).runner
                == old(self).runner,
            old(self).runner.status == RunnerStatus::Running ==> r is Some || old(self).points@.len() == 0,
            final(self).runner.status == RunnerStatus::Running || final(self).runner.status == old(self).runner.status
                || final(self).runner.status == RunnerStatus::Finished,
            final(self)@ == (CurveView { runner: final(self).runner, ..old(self)@ }),
            exists|s: u128| s <= max_duration_nanos() && (final(self)@, r) == polled(old(self)@, s),
    {
        let since = self.runner.leg_nanos();
        self.poll_runner_after(since)
    }

    /// First row of the point table shown in `visible_height` rows, so that
    /// the selected row stays in view.
    pub fn table_start_row(&self, visible_height: usize) -> (r: usize)
        requires
            visible_height > 0,
        ensures
            r == if self.selected >= visible_height {
                self.selected - (visible_height - 1)
            } else {
                0
            },
            self.selected >= visible_height ==> r <= self.selected < r + visible_height,
    {
        if self.selected >= visible_height {
            self.selected - (visible_height - 1)
        } else {
            0
        }
    }

    /// The highest temperature of the curve, and at least `min_temp`.
    pub fn max_curve_temp(&self) -> (r: i64)
        ensures
            r >= self.min_temp,
            forall|i: int| 0 <= i < self.points@.len() ==> r >= #[trigger] self.points@[i].temp,
            r == self.min_temp || exists|i: int|
                0 <= i < self.points@.len() && r == #[trigger] self.points@[i].temp,
    {
        let mut m = self.min_temp;
        let mut i: usize = 0;
        while i < self.points.len()
            invariant
                i <= self.points@.len(),
                m >= self.min_temp,
                forall|j: int| 0 <= j < i ==> m >= #[trigger] self.points@[j].temp,
                m == self.min_temp || exists|j: int| 0 <= j < i && m == #[trigger] self.points@[j].temp,
            decreases self.points@.len() - i,
        {
            let t = self.points[i].temp;
            if t > m {
                m = t;
            }
            i = i + 1;
        }
        m
    }
}

/// `a * b / c` never exceeds `a` when `b <= c`, and the product of two
/// numbers below 2^64 fits in a `u128`.
proof fn lemma_scaled_part(a: int, b: int, c: int)
    requires
        0 <= a < 0x1_0000_0000_0000_0000,
        0 <= b <= c,
        0 < c,
        b < 0x1_0000_0000_0000_0000,
    ensures
        0 <= a * b <= u128::MAX,
        0 <= (a * b) / c <= a,
{
    assert(0 <= a * b <= a * c) by (nonlinear_arith)
        requires
            0 <= a,
            0 <= b <= c,
    ;
    assert(a * b <= 0xffff_ffff_ffff_ffff * 0xffff_ffff_ffff_ffff) by (nonlinear_arith)
        requires
            0 <= a < 0x1_0000_0000_0000_0000,
            0 <= b < 0x1_0000_0000_0000_0000,
    ;
    assert((a * b) / c <= (a * c) / c) by (nonlinear_arith)
        requires
            0 <= a * b <= a * c,
            0 < c,
    ;
    assert((a * c) / c == a) by (nonlinear_arith)
        requires
            0 < c,
    ;
    assert(0 <= (a * b) / c) by (nonlinear_arith)
        requires
            0 <= a * b,
            0 < c,
    ;
}

/// Temperature at time `t` on the segment from `p0` to `p1`.
fn lerp_exec(p0: CurvePoint, p1: CurvePoint, t: i64) -> (r: i64)
    requires
        p0.time_min <= t <= p1.time_min,
    ensures
        r == lerp(p0, p1, t as int),
        p0.temp <= p1.temp ==> p0.temp <= r <= p1.temp,
        p1.temp < p0.temp ==> p1.temp <= r <= p0.temp,
{
    let dt: i128 = p1.time_min as i128 - p0.time_min as i128;
    if dt == 0 {
        return p1.temp;
    }
    let off: i128 = t as i128 - p0.time_min as i128;
    if p1.temp >= p0.temp {
        let d: i128 = p1.temp as i128 - p0.temp as i128;
        proof {
            lemma_scaled_part(d as int, off as int, dt as int);
        }
        let q: u128 = ((d as u128) * (off as u128)) / (dt as u128);
        (p0.temp as i128 + q as i128) as i64
    } else {
        let d: i128 = p0.temp as i128 - p1.temp as i128;
        proof {
            lemma_scaled_part(d as int, off as int, dt as int);
        }
        let q: u128 = ((d as u128) * (off as u128)) / (dt as u128);
        (p0.temp as i128 - q as i128) as i64
    }
}

/// Midpoint of two fixed-point values, rounded down.
fn mid_i64(a: i64, b: i64) -> (r: i64)
    ensures
        r == (a + b) / 2,
{
    let s: i128 = a as i128 + b as i128;
    if s >= 0 {
        (s / 2) as i64
    } else {
        let q: i128 = (-s + 1) / 2;
        (-q) as i64
    }
}


/// Point times never go down along the curve.
pub open spec fn times_ordered(pts: Seq<CurvePoint>) -> bool {
    forall|i: int, j: int| 0 <= i <= j < pts.len() ==> pts[i].time_min <= pts[j].time_min
}

/// Point times strictly go up along the curve.
pub open spec fn times_increasing(pts: Seq<CurvePoint>) -> bool {
    forall|i: int, j: int| 0 <= i < j < pts.len() ==> pts[i].time_min < pts[j].time_min
}

/// Every point temperature lies in `[lo, hi]`.
pub open spec fn temps_within(pts: Seq<CurvePoint>, lo: int, hi: int) -> bool {
    forall|i: int| 0 <= i < pts.len() ==> lo <= #[trigger] pts[i].temp <= hi
}

/// Deleting the point that was just added gives the curve back, for a curve
/// of at least two points and a selection on it.
pub proof fn lemma_add_then_delete_restores(pts: Seq<CurvePoint>, sel: int)
    requires
        pts.len() >= 2,
        0 <= sel < pts.len(),
    ensures
        deleted_curve(added_curve(pts, sel).0, added_curve(pts, sel).1).0 == pts,
{
    let (p1, s1) = added_curve(pts, sel);
    if sel + 1 >= pts.len() {
        assert(p1.remove(s1) =~= pts);
    } else {
        assert(p1.remove(s1) =~= pts);
    }
}

/// Moving the points from `from` on by `delta`, when no time leaves the
/// range of `i64`, keeps the length of every segment after `from` and leaves
/// the points before it where they were.
pub proof fn lemma_shift_keeps_durations(pts: Seq<CurvePoint>, from: int, delta: int)
    requires
        0 <= from,
        forall|j: int|
            from <= j < pts.len() ==> i64::MIN <= #[trigger] pts[j].time_min + delta <= i64::MAX,
    ensures
        shift_from(pts, from, delta).len() == pts.len(),
        forall|j: int|
            from <= j < pts.len() ==> #[trigger] shift_from(pts, from, delta)[j].time_min == pts[j].time_min
                + delta,
        forall|j: int|
            from <= j && j + 1 < pts.len() ==> shift_from(pts, from, delta)[j + 1].time_min
                - shift_from(pts, from, delta)[j].time_min == #[trigger] pts[j + 1].time_min
                - pts[j].time_min,
        forall|j: int| 0 <= j < from && j < pts.len() ==> #[trigger] shift_from(pts, from, delta)[j] == pts[j],
        forall|j: int|
            0 <= j < pts.len() ==> #[trigger] shift_from(pts, from, delta)[j].temp == pts[j].temp,
{
    assert forall|j: int| from <= j && j + 1 < pts.len() implies shift_from(pts, from, delta)[j + 1].time_min
        - shift_from(pts, from, delta)[j].time_min == #[trigger] pts[j + 1].time_min - pts[j].time_min by {
        assert(i64::MIN <= pts[j].time_min + delta <= i64::MAX);
        assert(i64::MIN <= pts[j + 1].time_min + delta <= i64::MAX);
    }
}

/// Shortening a segment by a step undoes lengthening it by the same step,
/// when the segment was at least a minute long and no time leaves `i64`.
pub proof fn lemma_decrease_time_undoes_increase(pts: Seq<CurvePoint>, sel: int, step: int)
    requires
        0 < sel < pts.len(),
        step >= 0,
        pts[sel].time_min - pts[sel - 1].time_min >= min_gap(),
        forall|j: int| sel <= j < pts.len() ==> #[trigger] pts[j].time_min + step <= i64::MAX,
    ensures
        time_decreased_curve(time_increased_curve(pts, sel, step), sel, step) == pts,
{
    let up = time_increased_curve(pts, sel, step);
    assert(up[sel].time_min == pts[sel].time_min + step);
    assert(up[sel - 1] == pts[sel - 1]);
    assert(time_reduction(up, sel, step) == step);
    if step > 0 {
        assert(shift_from(up, sel, -step) =~= pts);
    } else {
        assert(up =~= pts);
    }
}

/// Moving, lengthening or shortening a segment keeps the point times in
/// order; a moved point lands at least a minute after its predecessor unless
/// the requested time is beyond `i64`.
pub proof fn lemma_time_edits_keep_order(pts: Seq<CurvePoint>, sel: int, step: int, t: int)
    requires
        times_ordered(pts),
        step >= 0,
        i64::MIN <= t <= i64::MAX,
    ensures
        times_ordered(time_increased_curve(pts, sel, step)),
        times_ordered(time_decreased_curve(pts, sel, step)),
        times_ordered(time_set_curve(pts, sel, t)),
        0 < sel < pts.len() ==> time_decreased_curve(pts, sel, step)[sel].time_min - pts[sel - 1].time_min
            >= if pts[sel].time_min - pts[sel - 1].time_min >= min_gap() {
            min_gap()
        } else {
            pts[sel].time_min - pts[sel - 1].time_min
        },
        0 < sel < pts.len() && pts[sel - 1].time_min + min_gap() <= i64::MAX ==> time_set_curve(
            pts,
            sel,
            t,
        )[sel].time_min - pts[sel - 1].time_min >= min_gap(),
{
    if 0 < sel < pts.len() {
        let up = time_increased_curve(pts, sel, step);
        assert forall|i: int, j: int| 0 <= i <= j < up.len() implies up[i].time_min <= up[j].time_min by {
            assert(pts[i].time_min <= pts[j].time_min);
            assert(pts[i].time_min <= pts[sel].time_min || i >= sel);
        }
        let down = time_decreased_curve(pts, sel, step);
        let delta = time_reduction(pts, sel, step);
        assert forall|i: int, j: int| 0 <= i <= j < down.len() implies down[i].time_min
            <= down[j].time_min by {
            assert(pts[i].time_min <= pts[j].time_min);
            if delta > 0 && i < sel && j >= sel {
                assert(pts[i].time_min <= pts[sel - 1].time_min);
                assert(pts[sel].time_min <= pts[j].time_min);
            }
        }
        let min_allowed = pts[sel - 1].time_min + min_gap();
        let target = if t >= min_allowed {
            t
        } else {
            min_allowed
        };
        let set = time_set_curve(pts, sel, t);
        assert(set[sel].time_min == sat_i64(target));
        assert forall|i: int, j: int| 0 <= i <= j < set.len() implies set[i].time_min <= set[j].time_min by {
            assert(pts[i].time_min <= pts[j].time_min);
            if i < sel && j >= sel {
                assert(pts[i].time_min <= pts[sel - 1].time_min);
                assert(pts[sel].time_min <= pts[j].time_min);
            }
        }
    }
}

/// The curve's temperature at any time lies between the lowest and the
/// highest point temperature.
pub proof fn lemma_curve_temp_within(pts: Seq<CurvePoint>, lo: int, hi: int, min_temp: int, t: int)
    requires
        pts.len() > 0,
        temps_within(pts, lo, hi),
    ensures
        lo <= curve_temp_at(pts, min_temp, t) <= hi,
{
    if t > pts[0].time_min && t < pts.last().time_min {
        lemma_scan_within(pts, 0, lo, hi, t);
    }
}

/// Segment scanning from any index gives a temperature in `[lo, hi]`.
proof fn lemma_scan_within(pts: Seq<CurvePoint>, i: int, lo: int, hi: int, t: int)
    requires
        pts.len() > 0,
        temps_within(pts, lo, hi),
    ensures
        lo <= scan_segments(pts, i, t) <= hi,
    decreases pts.len() - i,
{
    if i < 0 || i + 1 >= pts.len() {
        assert(lo <= pts[pts.len() - 1].temp <= hi);
    } else if pts[i].time_min <= t <= pts[i + 1].time_min {
        assert(lo <= pts[i].temp <= hi);
        assert(lo <= pts[i + 1].temp <= hi);
        lemma_lerp_between(pts[i], pts[i + 1], t);
    } else {
        lemma_scan_within(pts, i + 1, lo, hi, t);
    }
}

/// On its segment, the straight line stays between the end temperatures.
pub proof fn lemma_lerp_between(p0: CurvePoint, p1: CurvePoint, t: int)
    requires
        p0.time_min <= t <= p1.time_min,
    ensures
        p0.temp <= p1.temp ==> p0.temp <= lerp(p0, p1, t) <= p1.temp,
        p1.temp < p0.temp ==> p1.temp <= lerp(p0, p1, t) <= p0.temp,
{
    let dt = p1.time_min - p0.time_min;
    if dt != 0 {
        if p1.temp >= p0.temp {
            lemma_scaled_part(p1.temp - p0.temp, t - p0.time_min, dt);
        } else {
            lemma_scaled_part(p0.temp - p1.temp, t - p0.time_min, dt);
        }
    }
}

/// At the time of one of its points, a curve with strictly increasing times
/// gives exactly that point's temperature.
pub proof fn lemma_curve_temp_at_point(pts: Seq<CurvePoint>, min_temp: int, k: int)
    requires
        times_increasing(pts),
        0 <= k < pts.len(),
    ensures
        curve_temp_at(pts, min_temp, pts[k].time_min as int) == pts[k].temp,
{
    let t = pts[k].time_min as int;
    if k == 0 {
    } else if k == pts.len() - 1 {
        assert(pts[0].time_min < t);
    } else {
        assert(pts[0].time_min < t);
        assert(t < pts.last().time_min);
        lemma_scan_reaches(pts, 0, k, t);
        let p0 = pts[k - 1];
        let p1 = pts[k];
        let dt = p1.time_min - p0.time_min;
        assert(dt > 0);
        if p1.temp >= p0.temp {
            let d = p1.temp - p0.temp;
            assert((d * dt) / dt == d) by (nonlinear_arith)
                requires
                    dt > 0,
            ;
        } else {
            let d = p0.temp - p1.temp;
            assert((d * dt) / dt == d) by (nonlinear_arith)
                requires
                    dt > 0,
            ;
        }
    }
}

/// Scanning for the time of point `k` runs past every earlier segment.
proof fn lemma_scan_reaches(pts: Seq<CurvePoint>, i: int, k: int, t: int)
    requires
        times_increasing(pts),
        0 <= i < k < pts.len(),
        t == pts[k].time_min,
    ensures
        scan_segments(pts, i, t) == lerp(pts[k - 1], pts[k], t),
    decreases k - i,
{
    if i + 1 < k {
        assert(pts[i + 1].time_min < t);
        lemma_scan_reaches(pts, i + 1, k, t);
    } else {
        assert(pts[i].time_min < t);
    }
}

/// Adding, deleting and stepping the selection keep it on the curve; deleting
/// never leaves fewer than two points.
pub proof fn lemma_edits_keep_selection(pts: Seq<CurvePoint>, sel: int)
    requires
        0 <= sel < pts.len(),
    ensures
        0 <= next_selected(pts.len() as int, sel) < pts.len(),
        0 <= prev_selected(sel) < pts.len(),
        0 <= added_curve(pts, sel).1 < added_curve(pts, sel).0.len(),
        added_curve(pts, sel).0.len() == pts.len() + 1,
        0 <= deleted_curve(pts, sel).1 < deleted_curve(pts, sel).0.len(),
        deleted_curve(pts, sel).0.len() == if pts.len() <= 2 {
            pts.len() as int
        } else {
            pts.len() - 1
        },
        pts.len() >= 2 ==> deleted_curve(pts, sel).0.len() >= 2,
{
}

/// Temperature edits keep every point temperature within the editor's
/// limits, and so does adding a point to a non-empty curve.
pub proof fn lemma_temp_edits_stay_within(pts: Seq<CurvePoint>, sel: int, step: int, temp: int, lo: int, hi: int)
    requires
        temps_within(pts, lo, hi),
        0 <= sel < pts.len(),
        step >= 0,
        i64::MIN <= lo <= hi <= i64::MAX,
    ensures
        temps_within(with_temp(pts, sel, stepped_up(pts[sel].temp as int, step, hi)), lo, hi),
        temps_within(with_temp(pts, sel, stepped_down(pts[sel].temp as int, step, lo)), lo, hi),
        temps_within(with_temp(pts, sel, clamp(temp, lo, hi)), lo, hi),
        temps_within(added_curve(pts, sel).0, lo, hi),
{
    assert(lo <= pts[sel].temp <= hi);
    let a = added_curve(pts, sel).0;
    if sel + 1 < pts.len() {
        assert(lo <= pts[sel + 1].temp <= hi);
        assert forall|i: int| 0 <= i < a.len() implies lo <= #[trigger] a[i].temp <= hi by {
            if i > sel + 1 {
                assert(a[i] == pts[i - 1]);
            }
        }
    } else {
        assert(lo <= pts.last().temp <= hi);
        assert forall|i: int| 0 <= i < a.len() implies lo <= #[trigger] a[i].temp <= hi by {
            if i < pts.len() {
                assert(a[i] == pts[i]);
            }
        }
    }
}

/// The default curve starts at time zero, has strictly increasing times, and
/// its temperatures lie between 20 and 200 degrees.
pub proof fn lemma_default_curve_shape()
    ensures
        default_curve().len() == 6,
        default_curve()[0].time_min == 0,
        times_increasing(default_curve()),
        temps_within(default_curve(), 20_000, 200_000),
{
    let c = default_curve();
    assert forall|i: int, j: int| 0 <= i < j < c.len() implies c[i].time_min < c[j].time_min by {
        assert(c[0].time_min < c[1].time_min);
        assert(c[1].time_min < c[2].time_min);
        assert(c[2].time_min < c[3].time_min);
        assert(c[3].time_min < c[4].time_min);
        assert(c[4].time_min < c[5].time_min);
    }
}

/// A paused runner's run time does not move, however long the clock says
/// the leg ran; an idle or finished one reads zero.
pub proof fn lemma_paused_run_time_frozen(r: CurveRunner, a: u128, b: u128)
    ensures
        r.status == RunnerStatus::Paused ==> r.elapsed_after_spec(a) == r.elapsed_after_spec(b)
            == r.banked(),
        (r.status == RunnerStatus::Idle || r.status == RunnerStatus::Finished) ==> r.elapsed_after_spec(a)
            == 0,
{
}

/// A poll that reaches the end of the curve finishes the run, and further
/// polls give nothing until the runner is started again; polls before the
/// end leave the editor as it was.
pub proof fn lemma_poll_finishes_at_end(c: CurveView, a: u128, b: u128)
    requires
        c.runner.status == RunnerStatus::Running,
    ensures
        nanos_to_curve_time(c.runner.elapsed_after_spec(a) as int) >= curve_duration(c.points) ==> {
            &&& polled(c, a).0.runner.status == RunnerStatus::Finished
            &&& polled(polled(c, a).0, b).1 is None
            &&& polled(polled(c, a).0, b).0 == polled(c, a).0
        },
        nanos_to_curve_time(c.runner.elapsed_after_spec(a) as int) < curve_duration(c.points)
            ==> polled(c, a).0 == c && polled(c, a).1 is Some,
{
}

/// Adding a point keeps the point times in order and the first point as it
/// was; a point inserted between two points lies strictly between their
/// times, and on a curve with strictly increasing times they stay strictly
/// increasing, unless the new point goes between two points one nanosecond
/// apart (then it repeats the earlier time) or is appended beyond the range
/// of `i64`.
pub proof fn lemma_add_point_keeps_order(pts: Seq<CurvePoint>, sel: int)
    requires
        0 <= sel,
    ensures
        sel + 1 < pts.len() && pts[sel].time_min + 2 <= pts[sel + 1].time_min ==> {
            &&& pts[sel].time_min < added_curve(pts, sel).0[sel + 1].time_min
            &&& added_curve(pts, sel).0[sel + 1].time_min < pts[sel + 1].time_min
        },
        times_ordered(pts) ==> times_ordered(added_curve(pts, sel).0),
        times_increasing(pts) && (sel + 1 < pts.len() ==> pts[sel + 1].time_min - pts[sel].time_min
            >= 2) && (sel + 1 >= pts.len() && pts.len() > 0 ==> pts.last().time_min + append_gap()
            <= i64::MAX) ==> times_increasing(added_curve(pts, sel).0),
        pts.len() > 0 ==> added_curve(pts, sel).0[0] == pts[0],
{
    let a = added_curve(pts, sel).0;
    if pts.len() == 0 {
    } else if sel + 1 >= pts.len() {
        let n = pts.len() as int;
        assert forall|i: int| 0 <= i < n implies a[i] == pts[i] by {}
        assert(a[n] == appended_point(pts.last()));
        if times_ordered(pts) {
            assert forall|i: int, j: int| 0 <= i <= j < a.len() implies a[i].time_min <= a[j].time_min by {
                if j == n && i < n {
                    assert(pts[i].time_min <= pts[n - 1].time_min);
                }
            }
        }
        if times_increasing(pts) && pts.last().time_min + append_gap() <= i64::MAX {
            assert forall|i: int, j: int| 0 <= i < j < a.len() implies a[i].time_min < a[j].time_min by {
                if j == n {
                    if i < n - 1 {
                        assert(pts[i].time_min < pts[n - 1].time_min);
                    }
                }
            }
        }
    } else {
        let k = sel + 1;
        let m = midpoint(pts[sel], pts[k]);
        assert forall|i: int| 0 <= i < k implies a[i] == pts[i] by {}
        assert forall|i: int| k < i < a.len() implies a[i] == pts[i - 1] by {}
        assert(a[k] == m);
        if times_ordered(pts) {
            assert(pts[sel].time_min <= pts[k].time_min);
            assert(pts[sel].time_min <= m.time_min <= pts[k].time_min);
            assert forall|i: int, j: int| 0 <= i <= j < a.len() implies a[i].time_min <= a[j].time_min by {
                if i < k && j > k {
                    assert(pts[i].time_min <= pts[j - 1].time_min);
                } else if i < k && j == k {
                    assert(pts[i].time_min <= pts[sel].time_min);
                } else if i == k && j > k {
                    assert(pts[k].time_min <= pts[j - 1].time_min);
                } else if i > k {
                    assert(pts[i - 1].time_min <= pts[j - 1].time_min);
                } else if j < k {
                    assert(pts[i].time_min <= pts[j].time_min);
                }
            }
        }
        if times_increasing(pts) && pts[k].time_min - pts[sel].time_min >= 2 {
            assert(pts[sel].time_min < m.time_min < pts[k].time_min);
            assert forall|i: int, j: int| 0 <= i < j < a.len() implies a[i].time_min < a[j].time_min by {
                if i < k && j > k {
                    assert(pts[i].time_min < pts[j - 1].time_min);
                } else if i < k && j == k {
                    if i < sel {
                        assert(pts[i].time_min < pts[sel].time_min);
                    }
                } else if i == k && j > k {
                    if j - 1 > k {
                        assert(pts[k].time_min < pts[j - 1].time_min);
                    }
                } else if i > k {
                    assert(pts[i - 1].time_min < pts[j - 1].time_min);
                } else if j < k {
                    assert(pts[i].time_min < pts[j].time_min);
                }
            }
        }
    }
}

/// Shortening the segment before the selected point undoes lengthening it,
/// for any editor whose time step is not negative, whose selected segment is
/// at least a minute long and whose later times stay within `i64` after the
/// step.
pub proof fn lemma_editor_time_steps_cancel(c: CurveView)
    requires
        0 < c.selected < c.points.len(),
        c.time_step_min >= 0,
        c.points[c.selected as int].time_min - c.points[c.selected - 1].time_min >= min_gap(),
        forall|j: int|
            c.selected <= j < c.points.len() ==> #[trigger] c.points[j].time_min + c.time_step_min
                <= i64::MAX,
    ensures
        curve_time_down(curve_time_up(c)) == c,
{
    lemma_decrease_time_undoes_increase(c.points, c.selected as int, c.time_step_min as int);
}

/// While running, the run time grows with the length of the current leg, by
/// exactly as much as the leg grew where the sum stays within `u128`; a leg
/// started on a paused runner adds to its banked time, one started on
/// an idle or finished runner counts from zero, and pausing banks it.
pub proof fn lemma_run_time_accumulates(r: CurveRunner, t: Instant, s1: u128, s2: u128)
    ensures
        r.status == RunnerStatus::Running && s1 <= s2 ==> r.elapsed_after_spec(s1)
            <= r.elapsed_after_spec(s2),
        r.status == RunnerStatus::Running && r.leg_started() && s1 <= s2 && r.banked() + s2
            <= u128::MAX ==> r.elapsed_after_spec(s2) - r.elapsed_after_spec(s1) == s2 - s1,
        r.status == RunnerStatus::Paused ==> resumed_runner(r, t).elapsed_after_spec(s1)
            == r.banked().saturating_add(s1),
        (r.status == RunnerStatus::Idle || r.status == RunnerStatus::Finished) ==> resumed_runner(
            r,
            t,
        ).elapsed_after_spec(s1) == s1,
        paused_runner(resumed_runner(r, t), s1).elapsed_after_spec(s2) == resumed_runner(
            r,
            t,
        ).elapsed_after_spec(s1),
{
}

/// Raising the selected point's temperature adds the editor's temperature
/// step, capped at `max_temp`; lowering it subtracts that step, raised to
/// `min_temp`. Nothing else changes, and a step down that stays above
/// `min_temp`, followed by a step up, gives the editor back.
pub proof fn lemma_curve_temp_steps(c: CurveView)
    requires
        c.selected < c.points.len(),
    ensures
        ({
            let t = c.points[c.selected as int].temp;
            let u = curve_temp_up(c);
            &&& u.points.len() == c.points.len()
            &&& u.selected == c.selected
            &&& u.points[c.selected as int].time_min == c.points[c.selected as int].time_min
            &&& forall|i: int| 0 <= i < c.points.len() && i != c.selected ==> #[trigger] u.points[i] == c.points[i]
            &&& t + c.temp_step >= i64::MIN ==> u.points[c.selected as int].temp == if t + c.temp_step <= c.max_temp {
                t + c.temp_step
            } else {
                c.max_temp as int
            }
        }),
        ({
            let t = c.points[c.selected as int].temp;
            let d = curve_temp_down(c);
            &&& d.points.len() == c.points.len()
            &&& d.selected == c.selected
            &&& d.points[c.selected as int].time_min == c.points[c.selected as int].time_min
            &&& forall|i: int| 0 <= i < c.points.len() && i != c.selected ==> #[trigger] d.points[i] == c.points[i]
            &&& t - c.temp_step <= i64::MAX ==> d.points[c.selected as int].temp == if t - c.temp_step >= c.min_temp {
                t - c.temp_step
            } else {
                c.min_temp as int
            }
        }),
        ({
            let t = c.points[c.selected as int].temp;
            c.temp_step >= 0 && t <= c.max_temp && t - c.temp_step >= c.min_temp ==> curve_temp_up(
                curve_temp_down(c),
            ) == c
        }),
{
    let t = c.points[c.selected as int].temp;
    if c.temp_step >= 0 && t <= c.max_temp && t - c.temp_step >= c.min_temp {
        let d = curve_temp_down(c);
        assert(d.points[c.selected as int].temp == t - c.temp_step);
        let u = curve_temp_up(d);
        assert(u.points[c.selected as int].temp == t);
        assert(u.points =~= c.points);
    }
}

} // verus!
