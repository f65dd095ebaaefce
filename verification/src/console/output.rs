//! What the terminal is given to show: the numbers behind the lines of the screen.

use crate::config::Config;
use vstd::prelude::*;

verus! {

/// The colour of the timeout bar.
#[derive(Clone, Copy, Debug, PartialEq, Eq, Structural)]
pub enum BarTone {
    /// Plenty of time is left.
    Green,
    /// The time is running out.
    Yellow,
    /// Little time is left.
    Red,
}

/// The timeout bar above the current offer: a row of up to 20 cells in one colour.
#[derive(Clone, Copy, Debug, PartialEq, Eq, Structural)]
pub struct TimeoutBar {
    pub cells: u32,
    pub tone: BarTone,
}

/// The most cells that the timeout bar has.
pub const TIMEOUT_BAR_CELLS: u32 = 20;

impl TimeoutBar {
    /// The cells of the bar when `percent` of the time of the offer is left: one for
    /// every full five percent, and never more than the bar has.
    pub open spec fn cells_for(percent: nat) -> nat {
        if percent / 5 > TIMEOUT_BAR_CELLS {
            TIMEOUT_BAR_CELLS as nat
        } else {
            percent / 5
        }
    }

    /// The colour of a bar of that many cells: green above 13, yellow above 7, else red.
    pub open spec fn tone_for(cells: nat) -> BarTone {
        if cells > 13 {
            BarTone::Green
        } else if cells > 7 {
            BarTone::Yellow
        } else {
            BarTone::Red
        }
    }

    /// Returns the timeout bar that shows that `percent` of the time of the offer is left.
    pub fn for_percent(percent: u32) -> (bar: TimeoutBar)
        ensures
            bar.cells == TimeoutBar::cells_for(percent as nat),
            bar.tone == TimeoutBar::tone_for(bar.cells as nat),
            bar.cells <= TIMEOUT_BAR_CELLS,
    {
        let mut cells = percent / 5;
        if cells > TIMEOUT_BAR_CELLS {
            cells = TIMEOUT_BAR_CELLS;
        }
        let tone = if cells > 13 {
            BarTone::Green
        } else if cells > 7 {
            BarTone::Yellow
        } else {
            BarTone::Red
        };
        TimeoutBar { cells, tone }
    }
}

/// Returns how many offers of the game come after the offer with the given id.
pub fn offers_left(id: u32) -> (left: u32)
    requires
        id < Config::AMOUNT_OF_OFFERS,
    ensures
        left == Config::AMOUNT_OF_OFFERS - id - 1,
{
    Config::AMOUNT_OF_OFFERS - id - 1
}

} // verus!
