//! Color attributes. The machine holds two small color codes; a host
//! syscall that renders text consumes them. Codes are validated lazily, at
//! the point a syscall reads them: a code outside the defined range is an
//! UnknownColor fault.

use vstd::prelude::*;

use crate::machine::{Fault, FaultKind, MachineView, QCPU};

verus! {

/// The nine colors a color attribute can name, in code order `0 ..= 8`.
#[derive(Clone, Copy, Debug, PartialEq, Eq, Structural)]
pub enum ColorName {
    White,
    Green,
    Red,
    Yellow,
    Blue,
    Magenta,
    Cyan,
    Black,
    Grey,
}

/// The color a code names, or `None` outside `0 ..= 8`.
pub open spec fn spec_color(code: u16) -> Option<ColorName> {
    if code == 0 {
        Some(ColorName::White)
    } else if code == 1 {
        Some(ColorName::Green)
    } else if code == 2 {
        Some(ColorName::Red)
    } else if code == 3 {
        Some(ColorName::Yellow)
    } else if code == 4 {
        Some(ColorName::Blue)
    } else if code == 5 {
        Some(ColorName::Magenta)
    } else if code == 6 {
        Some(ColorName::Cyan)
    } else if code == 7 {
        Some(ColorName::Black)
    } else if code == 8 {
        Some(ColorName::Grey)
    } else {
        None
    }
}

/// The machine's current color pair, foreground checked first: see
/// `QCPU::color_pair`.
pub open spec fn spec_color_pair(s: MachineView) -> Result<(ColorName, ColorName), Fault> {
    match spec_color(s.fg_color) {
        Some(fg) => match spec_color(s.bg_color) {
            Some(bg) => Ok((fg, bg)),
            None => Err(
                Fault { kind: FaultKind::UnknownColor, value: s.bg_color as usize, pc: s.pc },
            ),
        },
        None => Err(Fault { kind: FaultKind::UnknownColor, value: s.fg_color as usize, pc: s.pc }),
    }
}

/// Decodes one color code.
pub fn color_of(code: u16) -> (r: Option<ColorName>)
    ensures
        r == spec_color(code),
{
    match code {
        0 => Some(ColorName::White),
        1 => Some(ColorName::Green),
        2 => Some(ColorName::Red),
        3 => Some(ColorName::Yellow),
        4 => Some(ColorName::Blue),
        5 => Some(ColorName::Magenta),
        6 => Some(ColorName::Cyan),
        7 => Some(ColorName::Black),
        8 => Some(ColorName::Grey),
        _ => None,
    }
}

impl QCPU {
    /// The colors named by the current foreground and background
    /// attributes, for a rendering syscall to consume; a code outside the
    /// defined range is an UnknownColor fault, the foreground checked
    /// first.
    pub fn color_pair(&self) -> (r: Result<(ColorName, ColorName), Fault>)
        ensures
            r == spec_color_pair(self@),
    {
        let fg = match color_of(self.current_fg_color) {
            Some(fg) => fg,
            None => {
                return Err(
                    Fault {
                        kind: FaultKind::UnknownColor,
                        value: self.current_fg_color as usize,
                        pc: self.pc,
                    },
                );
            },
        };
        match color_of(self.current_bg_color) {
            Some(bg) => Ok((fg, bg)),
            None => Err(
                Fault {
                    kind: FaultKind::UnknownColor,
                    value: self.current_bg_color as usize,
                    pc: self.pc,
                },
            ),
        }
    }
}

} // verus!
