//! Electrical configuration of a pin.

use vstd::prelude::*;

verus! {

/// Pull setting for an input.
#[derive(Debug, PartialEq, Eq, Structural, Clone, Copy)]
pub enum Pull {
    /// Neither resistor is connected: the input floats.
    Floating,
    /// The pull-up resistor is connected.
    Up,
    /// The pull-down resistor is connected.
    Down,
}

/// Drive current settings for push-pull outputs.
#[derive(Debug, PartialEq, Eq, Structural, Clone, Copy)]
pub enum OutputDrive {
    /// The drive current is 5 mA.
    Low,
    /// The drive current is 20 mA.
    High,
}

/// What a pin is electrically configured as.
///
/// A pin handle starts out `Disconnected`: nothing has been written to the
/// pin's configuration bits on its behalf yet. The registers themselves only
/// ever encode the other two modes.
#[derive(Debug, PartialEq, Eq, Structural, Clone, Copy)]
pub enum Mode {
    /// No mode has been selected through this handle.
    Disconnected,
    /// Digital input with the given pull.
    Input(Pull),
    /// Push-pull output with the given drive strength.
    Output(OutputDrive),
}

impl Pull {
    /// Whether this setting connects the pull-up resistor.
    pub open spec fn up(self) -> bool {
        self == Pull::Up
    }

    /// Whether this setting connects the pull-down resistor.
    pub open spec fn down(self) -> bool {
        self == Pull::Down
    }
}

impl OutputDrive {
    /// Whether this is the 20 mA setting.
    pub open spec fn strong(self) -> bool {
        self == OutputDrive::High
    }

    /// The drive that a set (`true`) or clear (`false`) strength bit selects.
    pub open spec fn of(bit: bool) -> OutputDrive {
        if bit {
            OutputDrive::High
        } else {
            OutputDrive::Low
        }
    }
}

} // verus!
