//! Messages exchanged with the temperature sensor.

use vstd::prelude::*;
use crate::types::temperature::{
    temperature_from_byte, temperature_of_wire_byte, temperature_to_byte, temperature_wire_byte,
    Temperature,
};
use crate::wire::Message;

verus! {

/// Opcode of [`ToPeripheral::Read`].
pub const OPCODE_READ: u8 = 0xbe;

/// Opcode of [`FromPeripheral::Temperature`].
pub const OPCODE_TEMPERATURE: u8 = 0xef;

/// A command sent to the sensor.
#[derive(Clone, Copy, Debug, PartialEq, Eq, Structural)]
pub enum ToPeripheral {
    /// Request a new measurement.
    Read,
}

/// A message received from the sensor.
#[derive(Clone, Copy, Debug, PartialEq, Eq, Structural)]
pub enum FromPeripheral {
    /// A temperature value in Celsius.
    Temperature(Temperature),
}

impl Message for ToPeripheral {
    open spec fn wire_opcode(&self) -> u8 {
        OPCODE_READ
    }

    open spec fn wire_payload(&self) -> Seq<u8> {
        Seq::empty()
    }

    open spec fn payload_len(opcode: u8) -> Option<nat> {
        if opcode == OPCODE_READ {
            Some(0)
        } else {
            None
        }
    }

    open spec fn from_wire(opcode: u8, payload: Seq<u8>) -> Option<Self> {
        if opcode == OPCODE_READ && payload.len() == 0 {
            Some(ToPeripheral::Read)
        } else {
            None
        }
    }

    proof fn lemma_payload_len(&self) {
    }

    proof fn lemma_payload_bounded(opcode: u8) {
    }

    proof fn lemma_from_wire(&self) {
    }

    proof fn lemma_wire_unique(&self, opcode: u8, payload: Seq<u8>) {
        assert(payload =~= self.wire_payload());
    }

    fn opcode(&self) -> (opcode: u8) {
        OPCODE_READ
    }

    fn payload(&self) -> (payload: Vec<u8>) {
        Vec::new()
    }

    fn payload_size(opcode: u8) -> (len: Option<usize>) {
        if opcode == OPCODE_READ {
            Some(0)
        } else {
            None
        }
    }

    fn assemble(opcode: u8, payload: &[u8]) -> (message: Option<Self>) {
        if opcode == OPCODE_READ && payload.len() == 0 {
            Some(ToPeripheral::Read)
        } else {
            None
        }
    }
}

impl Message for FromPeripheral {
    open spec fn wire_opcode(&self) -> u8 {
        OPCODE_TEMPERATURE
    }

    open spec fn wire_payload(&self) -> Seq<u8> {
        match self {
            FromPeripheral::Temperature(temperature) => seq![temperature_wire_byte(*temperature)],
        }
    }

    open spec fn payload_len(opcode: u8) -> Option<nat> {
        if opcode == OPCODE_TEMPERATURE {
            Some(1)
        } else {
            None
        }
    }

    open spec fn from_wire(opcode: u8, payload: Seq<u8>) -> Option<Self> {
        if opcode == OPCODE_TEMPERATURE && payload.len() == 1 {
            Some(FromPeripheral::Temperature(temperature_of_wire_byte(payload[0])))
        } else {
            None
        }
    }

    proof fn lemma_payload_len(&self) {
    }

    proof fn lemma_payload_bounded(opcode: u8) {
    }

    proof fn lemma_from_wire(&self) {
    }

    proof fn lemma_wire_unique(&self, opcode: u8, payload: Seq<u8>) {
        assert(payload =~= self.wire_payload());
    }

    fn opcode(&self) -> (opcode: u8) {
        OPCODE_TEMPERATURE
    }

    fn payload(&self) -> (payload: Vec<u8>) {
        match self {
            FromPeripheral::Temperature(temperature) => vec![temperature_to_byte(*temperature)],
        }
    }

    fn payload_size(opcode: u8) -> (len: Option<usize>) {
        if opcode == OPCODE_TEMPERATURE {
            Some(1)
        } else {
            None
        }
    }

    fn assemble(opcode: u8, payload: &[u8]) -> (message: Option<Self>) {
        if opcode == OPCODE_TEMPERATURE && payload.len() == 1 {
            Some(FromPeripheral::Temperature(temperature_from_byte(payload[0])))
        } else {
            None
        }
    }
}

} // verus!
