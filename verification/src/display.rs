//! Small rules of the presentation: how a signal strength and a frequency are
//! read, and where a dialog of fixed size goes.

use vstd::prelude::*;

verus! {

/// A rectangle of terminal cells.
#[derive(Clone, Copy, Debug, PartialEq, Eq)]
pub struct Area {
    pub x: u16,
    pub y: u16,
    pub width: u16,
    pub height: u16,
}

/// The radio band of a channel.
#[derive(Clone, Copy, Debug, PartialEq, Eq)]
pub enum Band {
    /// 2.4 GHz: 2412 to 2484 MHz.
    Band2,
    /// 5 GHz: 5170 to 5835 MHz.
    Band5,
    /// 6 GHz: 5945 to 7125 MHz.
    Band6,
    /// Any other frequency.
    Unknown,
}

/// The number of bars, from one to four, that stand for a signal strength:
/// one more for each quarter of the scale that the strength goes beyond.
pub open spec fn bars_for(strength: u8) -> u8 {
    if strength <= 25 {
        1
    } else if strength <= 50 {
        2
    } else if strength <= 75 {
        3
    } else {
        4
    }
}

/// The band in which a frequency in MHz lies.
pub open spec fn band_for(frequency: u32) -> Band {
    if 2412 <= frequency <= 2484 {
        Band::Band2
    } else if 5170 <= frequency <= 5835 {
        Band::Band5
    } else if 5945 <= frequency <= 7125 {
        Band::Band6
    } else {
        Band::Unknown
    }
}

/// Half of what `outer` has more than `inner`, rounded down.
pub open spec fn margin(outer: u16, inner: u16) -> int {
    if outer > inner {
        (outer - inner) / 2
    } else {
        0
    }
}

/// A coordinate, held within what a cell coordinate can be.
pub open spec fn capped(value: int) -> u16 {
    if value > u16::MAX {
        u16::MAX
    } else {
        value as u16
    }
}

/// The rectangle of the given size in the middle of `area`, cut down to the
/// size of `area` where it would not fit.
pub open spec fn centered(width: u16, height: u16, area: Area) -> Area {
    Area {
        x: capped(area.x + margin(area.width, width)),
        y: capped(area.y + margin(area.height, height)),
        width: if width < area.width {
            width
        } else {
            area.width
        },
        height: if height < area.height {
            height
        } else {
            area.height
        },
    }
}

/// The number of bars that stand for a signal strength.
pub fn signal_bars(strength: u8) -> (bars: u8)
    ensures
        bars == bars_for(strength),
        1 <= bars <= 4,
{
    if strength <= 25 {
        1
    } else if strength <= 50 {
        2
    } else if strength <= 75 {
        3
    } else {
        4
    }
}

/// The band in which a frequency in MHz lies.
pub fn band_of(frequency: u32) -> (band: Band)
    ensures
        band == band_for(frequency),
{
    if 2412 <= frequency && frequency <= 2484 {
        Band::Band2
    } else if 5170 <= frequency && frequency <= 5835 {
        Band::Band5
    } else if 5945 <= frequency && frequency <= 7125 {
        Band::Band6
    } else {
        Band::Unknown
    }
}

/// `base` moved on by `step`, as far as a cell coordinate can go.
fn moved(base: u16, step: u16) -> (r: u16)
    ensures
        r == capped(base + step),
{
    if step > u16::MAX - base {
        u16::MAX
    } else {
        base + step
    }
}

/// The rectangle of the given size in the middle of `area`.
pub fn centered_rect_fixed(width: u16, height: u16, area: Area) -> (inner: Area)
    ensures
        inner == centered(width, height, area),
{
    let horizontal: u16 = if area.width > width {
        (area.width - width) / 2
    } else {
        0
    };
    let vertical: u16 = if area.height > height {
        (area.height - height) / 2
    } else {
        0
    };
    Area {
        x: moved(area.x, horizontal),
        y: moved(area.y, vertical),
        width: if width < area.width {
            width
        } else {
            area.width
        },
        height: if height < area.height {
            height
        } else {
            area.height
        },
    }
}

/// A centered rectangle lies within its area, with margins on both sides that
/// differ by one cell at most.
pub proof fn centered_lies_within(width: u16, height: u16, area: Area)
    requires
        area.x + area.width <= u16::MAX,
        area.y + area.height <= u16::MAX,
    ensures
        ({
            let inner = centered(width, height, area);
            let left = inner.x - area.x;
            let right = (area.x + area.width) - (inner.x + inner.width);
            let top = inner.y - area.y;
            let bottom = (area.y + area.height) - (inner.y + inner.height);
            &&& 0 <= left <= right <= left + 1
            &&& 0 <= top <= bottom <= top + 1
        }),
{
}

} // verus!
