use vstd::prelude::*;

use crate::fixed::{clamp, clamp_i64, max_i64, min_i64, sat_add, sat_i64, sat_sub};

verus! {

/// A setpoint tile: the value read back from the oven (`current`), the value
/// being edited (`value`) and the last value known to be applied on the oven
/// (`applied_value`). Numbers are fixed-point thousandths of `unit`.
pub struct ControlWidget {
    pub title: String,
    pub current: i64,
    pub value: i64,
    pub applied_value: i64,
    pub unit: String,
    pub step: i64,
    pub min: i64,
    pub max: i64,
    pub selected: bool,
    pub locked: bool,
}

/// The edited value after one step up: `value + step`, capped at `max`
/// (and at the range of `i64`).
pub open spec fn stepped_up(value: int, step: int, max: int) -> int {
    let s = sat_i64(value + step);
    if s <= max {
        s
    } else {
        max
    }
}

/// The edited value after one step down: `value - step`, raised to `min`
/// (and held to the range of `i64`).
pub open spec fn stepped_down(value: int, step: int, min: int) -> int {
    let s = sat_i64(value - step);
    if s >= min {
        s
    } else {
        min
    }
}

/// Two fixed-point values differ by more than one thousandth.
pub open spec fn differs(a: int, b: int) -> bool {
    a - b > 1 || b - a > 1
}

/// The plain values a [`ControlWidget`] holds.
pub struct ControlView {
    pub title: Seq<char>,
    pub current: i64,
    pub value: i64,
    pub applied_value: i64,
    pub unit: Seq<char>,
    pub step: i64,
    pub min: i64,
    pub max: i64,
    pub selected: bool,
    pub locked: bool,
}

impl View for ControlWidget {
    type V = ControlView;

    open spec fn view(&self) -> ControlView {
        ControlView {
            title: self.title@,
            current: self.current,
            value: self.value,
            applied_value: self.applied_value,
            unit: self.unit@,
            step: self.step,
            min: self.min,
            max: self.max,
            selected: self.selected,
            locked: self.locked,
        }
    }
}

/// The tile after one press of "increase".
pub open spec fn control_increased(c: ControlView) -> ControlView {
    ControlView {
        value: if c.locked {
            c.value
        } else {
            stepped_up(c.value as int, c.step as int, c.max as int) as i64
        },
        ..c
    }
}

/// The tile after one press of "decrease".
pub open spec fn control_decreased(c: ControlView) -> ControlView {
    ControlView {
        value: if c.locked {
            c.value
        } else {
            stepped_down(c.value as int, c.step as int, c.min as int) as i64
        },
        ..c
    }
}

/// The tile with its edited value set to `target` held to `[min, max]`.
pub open spec fn control_targeted(c: ControlView, target: int) -> ControlView {
    ControlView { value: clamp(target, c.min as int, c.max as int) as i64, ..c }
}

/// The tile locked or unlocked; locking removes the highlight.
pub open spec fn control_locked(c: ControlView, locked: bool) -> ControlView {
    ControlView { locked, selected: c.selected && !locked, ..c }
}

/// The tile highlighted or not.
pub open spec fn control_selected(c: ControlView, selected: bool) -> ControlView {
    ControlView { selected, ..c }
}

impl ControlWidget {
    /// A tile titled `title`, whose read-back, edited and applied values all
    /// start at `start`, unselected and unlocked.
    pub fn new(title: &str, start: i64, unit: &str, step: i64, min: i64, max: i64) -> (w: Self)
        ensures
            w@ == (ControlView {
                title: title@,
                current: start,
                value: start,
                applied_value: start,
                unit: unit@,
                step,
                min,
                max,
                selected: false,
                locked: false,
            }),
    {
        ControlWidget {
            title: String::from_str(title),
            current: start,
            value: start,
            applied_value: start,
            unit: String::from_str(unit),
            step,
            min,
            max,
            selected: false,
            locked: false,
        }
    }

    /// Highlights the tile.
    pub fn select(&mut self)
        ensures
            final(self)@ == control_selected(old(self)@, true),
    {
        self.selected = true;
    }

    /// Removes the highlight.
    pub fn deselect(&mut self)
        ensures
            final(self)@ == control_selected(old(self)@, false),
    {
        self.selected = false;
    }

    /// Locks or unlocks the tile; locking also removes the highlight.
    pub fn set_locked(&mut self, locked: bool)
        ensures
            final(self)@ == control_locked(old(self)@, locked),
    {
        self.locked = locked;
        if locked {
            self.selected = false;
        }
    }

    /// The edited value differs from the applied one by more than 0.001.
    pub fn is_dirty(&self) -> (r: bool)
        ensures
            r == differs(self.value as int, self.applied_value as int),
    {
        if self.value >= self.applied_value {
            (self.value as i128) - (self.applied_value as i128) > 1
        } else {
            (self.applied_value as i128) - (self.value as i128) > 1
        }
    }

    /// Records the edited value as applied.
    pub fn mark_applied(&mut self)
        ensures
            final(self)@ == (ControlView { applied_value: old(self).value, ..old(self)@ }),
    {
        self.applied_value = self.value;
    }

    /// Takes `val`, held to `[min, max]`, as the applied value; when no edit
    /// was pending the edited value follows it, else the pending edit stays.
    pub fn sync_applied(&mut self, val: i64)
        requires
            old(self).min <= old(self).max,
        ensures
            final(self).applied_value == clamp(val as int, old(self).min as int, old(self).max as int),
            final(self)@ == (ControlView {
                applied_value: final(self).applied_value,
                value: if differs(old(self).value as int, old(self).applied_value as int) {
                    old(self).value
                } else {
                    final(self).applied_value
                },
                ..old(self)@
            }),
    {
        let clean = !self.is_dirty();
        self.applied_value = clamp_i64(val, self.min, self.max);
        if clean {
            self.value = self.applied_value;
        }
    }

    /// One step up, capped at `max`; does nothing while locked.
    pub fn increase(&mut self)
        ensures
            final(self)@ == control_increased(old(self)@),
    {
        if !self.locked {
            self.value = min_i64(sat_add(self.value, self.step), self.max);
        }
    }

    /// One step down, raised to `min`; does nothing while locked.
    pub fn decrease(&mut self)
        ensures
            final(self)@ == control_decreased(old(self)@),
    {
        if !self.locked {
            self.value = max_i64(sat_sub(self.value, self.step), self.min);
        }
    }

    /// Stores the value read back from the oven.
    pub fn set_current(&mut self, current: i64)
        ensures
            final(self)@ == (ControlView { current, ..old(self)@ }),
    {
        self.current = current;
    }

    /// The tile's title line (see [`title_line`]).
    pub fn title_text(&self) -> (r: String)
        ensures
            r@ == title_line(self@),
    {
        let mut out = String::from_str(" ");
        out.append(self.title.as_str());
        if self.locked {
            out.append(" [LOCKED] ");
        } else {
            out.append(" ");
        }
        out
    }

    /// Filled cells of a bar `width` cells wide showing the edited value
    /// (see [`bar_cells`]).
    pub fn bar_fill(&self, width: u16) -> (r: u16)
        ensures
            r == bar_cells(self.value as int, self.min as int, self.max as int, width as int),
            r <= width,
    {
        let num: i128 = self.value as i128 - self.min as i128;
        let den: i128 = self.max as i128 - self.min as i128;
        if den == 0 {
            return if num > 0 {
                width
            } else {
                0
            };
        }
        let n: i128 = if den > 0 {
            num
        } else {
            -num
        };
        let d: i128 = if den > 0 {
            den
        } else {
            -den
        };
        if n <= 0 {
            return 0;
        }
        if n >= d {
            return width;
        }
        let w = width as i128;
        proof {
            assert(0 <= 2 * w * n + d < 2 * w * d + 2 * d) by (nonlinear_arith)
                requires
                    0 <= w <= 65535,
                    0 < n < d,
            ;
            assert(2 * w * n + d <= 2 * 65535 * 0x4_0000_0000_0000_0000 + 0x4_0000_0000_0000_0000)
                by (nonlinear_arith)
                requires
                    0 <= w <= 65535,
                    0 < n < d,
                    d <= 0x4_0000_0000_0000_0000,
            ;
            assert((2 * w * n + d) / (2 * d) <= w) by (nonlinear_arith)
                requires
                    0 <= w,
                    0 < n < d,
            ;
            assert((2 * w * n + d) / (2 * d) >= 0) by (nonlinear_arith)
                requires
                    0 <= w,
                    0 < n < d,
            ;
        }
        ((2 * w * n + d) / (2 * d)) as u16
    }

    /// Sets the edited value to `target` held to `[min, max]`, locked or not.
    pub fn set_target(&mut self, target: i64)
        requires
            old(self).min <= old(self).max,
        ensures
            final(self)@ == control_targeted(old(self)@, target as int),
    {
        self.value = clamp_i64(target, self.min, self.max);
    }
}

/// How many of `width` bar cells are filled for a tile at `value` in
/// `[min, max]`: the share of the way from `min` to `max`, held to `[0, 1]`,
/// times `width`, rounded half up. With `min == max` the bar is full above
/// `min` and empty otherwise.
pub open spec fn bar_cells(value: int, min: int, max: int, width: int) -> int {
    let num = value - min;
    let den = max - min;
    if den == 0 {
        if num > 0 {
            width
        } else {
            0
        }
    } else {
        let n = if den > 0 {
            num
        } else {
            -num
        };
        let d = if den > 0 {
            den
        } else {
            -den
        };
        if n <= 0 {
            0
        } else if n >= d {
            width
        } else {
            (2 * width * n + d) / (2 * d)
        }
    }
}

/// The tile's title line: the title padded by a space on each side, with
/// `[LOCKED]` added while locked.
pub open spec fn title_line(c: ControlView) -> Seq<char> {
    if c.locked {
        " "@ + c.title + " [LOCKED] "@
    } else {
        " "@ + c.title + " "@
    }
}

/// A step up or down never leaves `[min, max]` when it starts inside, for a
/// non-negative step.
pub proof fn lemma_steps_stay_in_range(value: int, step: int, min: int, max: int)
    requires
        min <= value <= max,
        step >= 0,
        i64::MIN <= min,
        max <= i64::MAX,
    ensures
        min <= stepped_up(value, step, max) <= max,
        min <= stepped_down(value, step, min) <= max,
{
}

/// A step down undoes a step up that was not capped.
pub proof fn lemma_step_down_undoes_step_up(value: int, step: int, min: int, max: int)
    requires
        min <= value,
        value + step <= max,
        step >= 0,
        i64::MIN <= min,
        max <= i64::MAX,
    ensures
        stepped_down(stepped_up(value, step, max), step, min) == value,
{
}

/// Setting a target always lands in `[min, max]`, and a target already
/// inside is kept as it is.
pub proof fn lemma_set_target_in_range(target: int, min: int, max: int)
    requires
        min <= max,
    ensures
        min <= clamp(target, min, max) <= max,
        min <= target <= max ==> clamp(target, min, max) == target,
{
}

} // verus!
