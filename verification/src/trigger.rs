//! Interrupt trigger conditions.

use vstd::prelude::*;

verus! {

/// Condition on a pin that raises its interrupt.
///
/// The interrupt controller holds one mode bit per line that tells level from
/// edge. The polarity is taken from the pin's output latch: a set latch
/// selects high level or rising edge, a clear latch low level or falling
/// edge.
#[derive(Debug, PartialEq, Eq, Structural, Clone, Copy)]
pub enum InterruptTrigger {
    LowLevel,
    HighLevel,
    RisingEdge,
    FallingEdge,
}

impl InterruptTrigger {
    /// Whether the trigger is one of the two edges.
    pub open spec fn edge(self) -> bool {
        self == InterruptTrigger::RisingEdge || self == InterruptTrigger::FallingEdge
    }

    /// Whether the trigger fires on the high level or the rising edge.
    pub open spec fn active_high(self) -> bool {
        self == InterruptTrigger::HighLevel || self == InterruptTrigger::RisingEdge
    }

    /// The trigger with the given mode bit and polarity.
    pub open spec fn of(edge: bool, active_high: bool) -> InterruptTrigger {
        if edge {
            if active_high {
                InterruptTrigger::RisingEdge
            } else {
                InterruptTrigger::FallingEdge
            }
        } else {
            if active_high {
                InterruptTrigger::HighLevel
            } else {
                InterruptTrigger::LowLevel
            }
        }
    }

    /// Tells level from edge.
    #[verifier::when_used_as_spec(edge)]
    pub fn is_edge(self) -> (edge: bool)
        ensures
            edge == self.edge(),
    {
        matches!(self, InterruptTrigger::RisingEdge | InterruptTrigger::FallingEdge)
    }

    /// Tells the polarity.
    #[verifier::when_used_as_spec(active_high)]
    pub fn is_active_high(self) -> (high: bool)
        ensures
            high == self.active_high(),
    {
        matches!(self, InterruptTrigger::HighLevel | InterruptTrigger::RisingEdge)
    }
}

} // verus!
