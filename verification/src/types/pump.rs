//! The state of the pump actuator.

use vstd::prelude::*;

verus! {

/// Wire value of [`PumpState::On`].
pub const PUMP_ON: u8 = 0x5e;

/// Wire value of [`PumpState::Off`].
pub const PUMP_OFF: u8 = 0xed;

/// Whether the pump is running.
#[derive(Clone, Copy, Debug, PartialEq, Eq, Structural)]
pub enum PumpState {
    On,
    Off,
}

impl PumpState {
    /// The byte that stands for this state on the wire.
    pub open spec fn wire_byte(self) -> u8 {
        match self {
            PumpState::On => PUMP_ON,
            PumpState::Off => PUMP_OFF,
        }
    }

    /// The state a wire byte stands for, if any.
    pub open spec fn of_wire_byte(byte: u8) -> Option<PumpState> {
        if byte == PUMP_ON {
            Some(PumpState::On)
        } else if byte == PUMP_OFF {
            Some(PumpState::Off)
        } else {
            None
        }
    }

    /// Returns the byte that stands for this state on the wire.
    pub fn to_byte(self) -> (byte: u8)
        ensures
            byte == self.wire_byte(),
    {
        match self {
            PumpState::On => PUMP_ON,
            PumpState::Off => PUMP_OFF,
        }
    }

    /// Reads a state from its wire byte; `None` for any other byte.
    pub fn from_byte(byte: u8) -> (state: Option<PumpState>)
        ensures
            state == Self::of_wire_byte(byte),
    {
        if byte == PUMP_ON {
            Some(PumpState::On)
        } else if byte == PUMP_OFF {
            Some(PumpState::Off)
        } else {
            None
        }
    }
}

/// Every state survives the trip through its wire byte, and distinct states have
/// distinct bytes.
pub proof fn lemma_pump_state_byte_round_trip(state: PumpState)
    ensures
        PumpState::of_wire_byte(state.wire_byte()) == Some(state),
{
}

} // verus!
