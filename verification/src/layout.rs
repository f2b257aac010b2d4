//! Where the pop-up windows of the settings screens sit on the terminal.
use vstd::prelude::*;
use crate::tracker::Mode;

verus! {

/// A rectangle of terminal cells.
#[derive(Clone, Copy, Debug, PartialEq, Eq, Structural)]
pub struct Area {
    pub x: u16,
    pub y: u16,
    pub width: u16,
    pub height: u16,
}

/// `a - b`, or 0 where `b` is larger (`saturating_sub`).
pub open spec fn minus(a: int, b: int) -> int {
    if a > b {
        a - b
    } else {
        0
    }
}

/// The smaller of `a` and `b`.
pub open spec fn smaller(a: int, b: int) -> int {
    if a < b {
        a
    } else {
        b
    }
}

/// A window of `width` by `height` cells centred on a screen of `screen_width` by
/// `screen_height` cells, cut down to the screen where it does not fit.
pub fn centered_popup(screen_width: u16, screen_height: u16, width: u16, height: u16) -> (r: Area)
    ensures
        r.x == minus(screen_width as int, width as int) / 2,
        r.y == minus(screen_height as int, height as int) / 2,
        r.width == smaller(width as int, screen_width as int),
        r.height == smaller(height as int, screen_height as int),
        r.x + r.width <= screen_width,
        r.y + r.height <= screen_height,
{
    Area {
        x: screen_width.saturating_sub(width) / 2,
        y: screen_height.saturating_sub(height) / 2,
        width: if width < screen_width {
            width
        } else {
            screen_width
        },
        height: if height < screen_height {
            height
        } else {
            screen_height
        },
    }
}

/// The size of the pop-up window of a screen; the quote table and the settings menu
/// fill the whole terminal.
pub fn popup_size(mode: Mode) -> (r: Option<(u16, u16)>)
    ensures
        r == match mode {
            Mode::EditInterval => Some((40u16, 7u16)),
            Mode::EditStocks => Some((60u16, 20u16)),
            Mode::AddStockId => Some((45u16, 9u16)),
            Mode::AddStockName => Some((45u16, 11u16)),
            Mode::ConfirmDelete => Some((35u16, 7u16)),
            _ => None::<(u16, u16)>,
        },
{
    match mode {
        Mode::EditInterval => Some((40, 7)),
        Mode::EditStocks => Some((60, 20)),
        Mode::AddStockId => Some((45, 9)),
        Mode::AddStockName => Some((45, 11)),
        Mode::ConfirmDelete => Some((35, 7)),
        _ => None,
    }
}

} // verus!
