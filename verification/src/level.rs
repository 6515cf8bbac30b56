//! Logic levels.

use vstd::prelude::*;
use vstd::std_specs::convert::FromSpecImpl;

verus! {

/// Digital input or output level.
#[derive(Debug, PartialEq, Eq, Structural, Clone, Copy)]
pub enum Level {
    Low,
    High,
}

impl Level {
    /// Whether the level is `High`.
    pub open spec fn high(self) -> bool {
        self == Level::High
    }

    /// The level that a set (`true`) or clear (`false`) bit stands for.
    pub open spec fn of(bit: bool) -> Level {
        if bit {
            Level::High
        } else {
            Level::Low
        }
    }

    /// The other level.
    pub open spec fn inverted(self) -> Level {
        Level::of(!self.high())
    }
}

impl From<bool> for Level {
    fn from(val: bool) -> (level: Level) {
        match val {
            true => Level::High,
            false => Level::Low,
        }
    }
}

impl FromSpecImpl<bool> for Level {
    open spec fn obeys_from_spec() -> bool {
        true
    }

    open spec fn from_spec(val: bool) -> Level {
        Level::of(val)
    }
}

impl From<Level> for bool {
    fn from(level: Level) -> (val: bool) {
        match level {
            Level::Low => false,
            Level::High => true,
        }
    }
}

impl FromSpecImpl<Level> for bool {
    open spec fn obeys_from_spec() -> bool {
        true
    }

    open spec fn from_spec(level: Level) -> bool {
        level.high()
    }
}

} // verus!
