use vstd::prelude::*;

use ratatui::layout::{Constraint, Direction, Layout};

use crate::tui::state::{AppState, InputState};

verus! {

/// Smallest terminal width the main screen is drawn in.
pub const MIN_WIDTH: u16 = 70;

/// Smallest terminal height the main screen is drawn in.
pub const MIN_HEIGHT: u16 = 20;

/// A rectangle of terminal cells.
#[derive(Debug, Clone, Copy, PartialEq, Eq, Structural)]
pub struct Rect {
    pub x: u16,
    pub y: u16,
    pub width: u16,
    pub height: u16,
}

/// The middle band (`x`, `y`, `width`, `height`) that ratatui's layout solver
/// gives when the area at `x`, `y` of size `width` by `height` is split, down
/// the rows when `vertical` and else across the columns, into a flexible
/// part, a part of `length` cells and another flexible part.
pub uninterp spec fn middle_band(
    x: u16,
    y: u16,
    width: u16,
    height: u16,
    length: u16,
    vertical: bool,
) -> (u16, u16, u16, u16);

/// Calls ratatui's `Layout::split` with the constraints `Fill(1)`,
/// `Length(length)`, `Fill(1)` in the direction `vertical` chooses, on
/// `area`, and returns the middle part. What the solver returns is not
/// restated: the result is named [`middle_band`] of the arguments.
#[verifier::external_body]
fn split_middle(area: Rect, length: u16, vertical: bool) -> (r: Rect)
    ensures
        (r.x, r.y, r.width, r.height) == middle_band(area.x, area.y, area.width, area.height, length, vertical),
{
    let direction = if vertical { Direction::Vertical } else { Direction::Horizontal };
    let parts = Layout::default().direction(direction).constraints(
        [Constraint::Fill(1), Constraint::Length(length), Constraint::Fill(1)],
    ).split(ratatui::layout::Rect::new(area.x, area.y, area.width, area.height));
    Rect { x: parts[1].x, y: parts[1].y, width: parts[1].width, height: parts[1].height }
}

/// A rectangle from the four values `middle_band` gives.
pub open spec fn rect_of(b: (u16, u16, u16, u16)) -> Rect {
    Rect { x: b.0, y: b.1, width: b.2, height: b.3 }
}

/// The box of `width` by `height` cells centred in `area`: the middle row
/// band of `height` rows, then its middle column band of `width` columns.
pub open spec fn centered_box(area: Rect, width: u16, height: u16) -> Rect {
    let v = rect_of(middle_band(area.x, area.y, area.width, area.height, height, true));
    rect_of(middle_band(v.x, v.y, v.width, v.height, width, false))
}

/// Centres a box of `width` by `height` cells in `area` (see
/// [`centered_box`]).
pub fn layout_centered_box(area: Rect, width: u16, height: u16) -> (r: Rect)
    ensures
        r == centered_box(area, width, height),
{
    let vertical = split_middle(area, height, true);
    split_middle(vertical, width, false)
}

/// What the screen shows.
#[derive(Debug, Clone, Copy, PartialEq, Eq, Structural)]
pub enum Screen {
    /// A warning that the terminal is too small.
    TooSmall,
    /// The connecting box, `popup_width` cells wide.
    Connecting { popup_width: u16 },
    /// Header, tiles and right-hand view, footer, and the entry box on top
    /// when `entry_open`.
    Main { entry_open: bool },
}

/// The screen for a terminal of `width` by `height` cells: the warning when
/// it is smaller than [`MIN_WIDTH`] by [`MIN_HEIGHT`]; the connecting box
/// (62 cells wide, but 4 narrower than the terminal at most) until the oven
/// answered; else the main screen.
pub open spec fn screen_of(state: AppState, input: InputState, width: u16, height: u16) -> Screen {
    if width < MIN_WIDTH || height < MIN_HEIGHT {
        Screen::TooSmall
    } else if state == AppState::Connecting {
        Screen::Connecting {
            popup_width: if 62 <= width.saturating_sub(4) {
                62
            } else {
                width.saturating_sub(4)
            },
        }
    } else {
        Screen::Main { entry_open: input == InputState::Editing }
    }
}

/// Decides what the screen shows (see [`screen_of`]).
pub fn plan_screen(state: AppState, input: InputState, width: u16, height: u16) -> (r: Screen)
    ensures
        r == screen_of(state, input, width, height),
{
    if width < MIN_WIDTH || height < MIN_HEIGHT {
        return Screen::TooSmall;
    }
    if state == AppState::Connecting {
        let room = width.saturating_sub(4);
        let popup_width = if 62 <= room {
            62
        } else {
            room
        };
        return Screen::Connecting { popup_width };
    }
    Screen::Main { entry_open: input == InputState::Editing }
}

} // verus!
