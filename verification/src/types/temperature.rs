//! Temperature samples.

use vstd::prelude::*;

verus! {

/// A temperature in whole degrees Celsius.
pub type Temperature = i8;

/// The byte that carries a temperature on the wire: its two's-complement encoding.
pub open spec fn temperature_wire_byte(temperature: Temperature) -> u8 {
    if temperature >= 0 {
        temperature as u8
    } else {
        (temperature + 256) as u8
    }
}

/// The temperature that a wire byte carries.
pub open spec fn temperature_of_wire_byte(byte: u8) -> Temperature {
    if byte < 128 {
        byte as i8
    } else {
        (byte - 256) as i8
    }
}

/// Returns the byte that carries `temperature` on the wire.
pub fn temperature_to_byte(temperature: Temperature) -> (byte: u8)
    ensures
        byte == temperature_wire_byte(temperature),
{
    if temperature >= 0 {
        temperature as u8
    } else {
        (temperature as i16 + 256) as u8
    }
}

/// Reads a temperature from its wire byte. Every byte is a valid temperature.
pub fn temperature_from_byte(byte: u8) -> (temperature: Temperature)
    ensures
        temperature == temperature_of_wire_byte(byte),
{
    if byte < 128 {
        byte as i8
    } else {
        (byte as i16 - 256) as i8
    }
}

/// The wire byte determines the temperature and the temperature the wire byte.
pub proof fn lemma_temperature_byte_round_trip(temperature: Temperature, byte: u8)
    ensures
        temperature_of_wire_byte(temperature_wire_byte(temperature)) == temperature,
        temperature_wire_byte(temperature_of_wire_byte(byte)) == byte,
{
}

} // verus!
