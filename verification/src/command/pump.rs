//! Messages exchanged with the pump.

use vstd::prelude::*;
use crate::types::pump::PumpState;
use crate::wire::Message;

verus! {

/// Opcode of [`ToPeripheral::SetState`].
pub const OPCODE_SET_STATE: u8 = 0xca;

/// Opcode of [`ToPeripheral::Get`].
pub const OPCODE_GET: u8 = 0x11;

/// Opcode of [`FromPeripheral::PumpState`].
pub const OPCODE_PUMP_STATE: u8 = 0xaa;

/// Opcode of [`FromPeripheral::Fault`].
pub const OPCODE_FAULT: u8 = 0x1f;

/// Wire value of [`Fault::Temperature`].
pub const FAULT_TEMPERATURE: u8 = 0xde;

/// Wire value of [`Fault::Current`].
pub const FAULT_CURRENT: u8 = 0xad;

/// A command sent to the pump.
#[derive(Clone, Copy, Debug, PartialEq, Eq, Structural)]
pub enum ToPeripheral {
    /// Switch the pump to the given state.
    SetState(PumpState),
    /// Report the current state.
    Get,
}

/// A message received from the pump.
#[derive(Clone, Copy, Debug, PartialEq, Eq, Structural)]
pub enum FromPeripheral {
    /// The state the pump is in.
    PumpState(PumpState),
    /// The pump has detected a hardware condition.
    Fault(Fault),
}

/// A hardware condition reported by the pump.
#[derive(Clone, Copy, Debug, PartialEq, Eq, Structural)]
pub enum Fault {
    /// The pump is too hot.
    Temperature,
    /// The pump draws too much current.
    Current,
}

impl Fault {
    /// The byte that stands for this fault on the wire.
    pub open spec fn wire_byte(self) -> u8 {
        match self {
            Fault::Temperature => FAULT_TEMPERATURE,
            Fault::Current => FAULT_CURRENT,
        }
    }

    /// The fault a wire byte stands for, if any.
    pub open spec fn of_wire_byte(byte: u8) -> Option<Fault> {
        if byte == FAULT_TEMPERATURE {
            Some(Fault::Temperature)
        } else if byte == FAULT_CURRENT {
            Some(Fault::Current)
        } else {
            None
        }
    }

    /// Returns the byte that stands for this fault on the wire.
    pub fn to_byte(self) -> (byte: u8)
        ensures
            byte == self.wire_byte(),
    {
        match self {
            Fault::Temperature => FAULT_TEMPERATURE,
            Fault::Current => FAULT_CURRENT,
        }
    }

    /// Reads a fault from its wire byte; `None` for any other byte.
    pub fn from_byte(byte: u8) -> (fault: Option<Fault>)
        ensures
            fault == Self::of_wire_byte(byte),
    {
        if byte == FAULT_TEMPERATURE {
            Some(Fault::Temperature)
        } else if byte == FAULT_CURRENT {
            Some(Fault::Current)
        } else {
            None
        }
    }
}

impl Message for ToPeripheral {
    open spec fn wire_opcode(&self) -> u8 {
        match self {
            ToPeripheral::SetState(_) => OPCODE_SET_STATE,
            ToPeripheral::Get => OPCODE_GET,
        }
    }

    open spec fn wire_payload(&self) -> Seq<u8> {
        match self {
            ToPeripheral::SetState(state) => seq![state.wire_byte()],
            ToPeripheral::Get => Seq::empty(),
        }
    }

    open spec fn payload_len(opcode: u8) -> Option<nat> {
        if opcode == OPCODE_SET_STATE {
            Some(1)
        } else if opcode == OPCODE_GET {
            Some(0)
        } else {
            None
        }
    }

    open spec fn from_wire(opcode: u8, payload: Seq<u8>) -> Option<Self> {
        if opcode == OPCODE_SET_STATE && payload.len() == 1 {
            match PumpState::of_wire_byte(payload[0]) {
                Some(state) => Some(ToPeripheral::SetState(state)),
                None => None,
            }
        } else if opcode == OPCODE_GET && payload.len() == 0 {
            Some(ToPeripheral::Get)
        } else {
            None
        }
    }

    proof fn lemma_payload_len(&self) {
    }

    proof fn lemma_payload_bounded(opcode: u8) {
    }

    proof fn lemma_from_wire(&self) {
    }

    proof fn lemma_wire_unique(&self, opcode: u8, payload: Seq<u8>) {
        assert(payload =~= self.wire_payload());
    }

    fn opcode(&self) -> (opcode: u8) {
        match self {
            ToPeripheral::SetState(_) => OPCODE_SET_STATE,
            ToPeripheral::Get => OPCODE_GET,
        }
    }

    fn payload(&self) -> (payload: Vec<u8>) {
        match self {
            ToPeripheral::SetState(state) => vec![state.to_byte()],
            ToPeripheral::Get => Vec::new(),
        }
    }

    fn payload_size(opcode: u8) -> (len: Option<usize>) {
        if opcode == OPCODE_SET_STATE {
            Some(1)
        } else if opcode == OPCODE_GET {
            Some(0)
        } else {
            None
        }
    }

    fn assemble(opcode: u8, payload: &[u8]) -> (message: Option<Self>) {
        if opcode == OPCODE_SET_STATE && payload.len() == 1 {
            match PumpState::from_byte(payload[0]) {
                Some(state) => Some(ToPeripheral::SetState(state)),
                None => None,
            }
        } else if opcode == OPCODE_GET && payload.len() == 0 {
            Some(ToPeripheral::Get)
        } else {
            None
        }
    }
}

impl Message for FromPeripheral {
    open spec fn wire_opcode(&self) -> u8 {
        match self {
            FromPeripheral::PumpState(_) => OPCODE_PUMP_STATE,
            FromPeripheral::Fault(_) => OPCODE_FAULT,
        }
    }

    open spec fn wire_payload(&self) -> Seq<u8> {
        match self {
            FromPeripheral::PumpState(state) => seq![state.wire_byte()],
            FromPeripheral::Fault(fault) => seq![fault.wire_byte()],
        }
    }

    open spec fn payload_len(opcode: u8) -> Option<nat> {
        if opcode == OPCODE_PUMP_STATE || opcode == OPCODE_FAULT {
            Some(1)
        } else {
            None
        }
    }

    open spec fn from_wire(opcode: u8, payload: Seq<u8>) -> Option<Self> {
        if opcode == OPCODE_PUMP_STATE && payload.len() == 1 {
            match PumpState::of_wire_byte(payload[0]) {
                Some(state) => Some(FromPeripheral::PumpState(state)),
                None => None,
            }
        } else if opcode == OPCODE_FAULT && payload.len() == 1 {
            match Fault::of_wire_byte(payload[0]) {
                Some(fault) => Some(FromPeripheral::Fault(fault)),
                None => None,
            }
        } else {
            None
        }
    }

    proof fn lemma_payload_len(&self) {
    }

    proof fn lemma_payload_bounded(opcode: u8) {
    }

    proof fn lemma_from_wire(&self) {
    }

    proof fn lemma_wire_unique(&self, opcode: u8, payload: Seq<u8>) {
        assert(payload =~= self.wire_payload());
    }

    fn opcode(&self) -> (opcode: u8) {
        match self {
            FromPeripheral::PumpState(_) => OPCODE_PUMP_STATE,
            FromPeripheral::Fault(_) => OPCODE_FAULT,
        }
    }

    fn payload(&self) -> (payload: Vec<u8>) {
        match self {
            FromPeripheral::PumpState(state) => vec![state.to_byte()],
            FromPeripheral::Fault(fault) => vec![fault.to_byte()],
        }
    }

    fn payload_size(opcode: u8) -> (len: Option<usize>) {
        if opcode == OPCODE_PUMP_STATE || opcode == OPCODE_FAULT {
            Some(1)
        } else {
            None
        }
    }

    fn assemble(opcode: u8, payload: &[u8]) -> (message: Option<Self>) {
        if opcode == OPCODE_PUMP_STATE && payload.len() == 1 {
            match PumpState::from_byte(payload[0]) {
                Some(state) => Some(FromPeripheral::PumpState(state)),
                None => None,
            }
        } else if opcode == OPCODE_FAULT && payload.len() == 1 {
            match Fault::from_byte(payload[0]) {
                Some(fault) => Some(FromPeripheral::Fault(fault)),
                None => None,
            }
        } else {
            None
        }
    }
}

} // verus!
