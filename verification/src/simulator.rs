//! The other end of the two links: a stand-in for the sensor and the pump that answers
//! commands from a simulated plant, for bench testing the supervisor without hardware.

use vstd::prelude::*;
use crate::command::pump;
use crate::command::temperature;
use crate::framing::FramingBuffer;
use crate::link::{receive, reception, LinkError};
use crate::peripherals::LINK_BUFFER_LEN;
use crate::types::pump::PumpState;
use crate::types::temperature::Temperature;
use crate::wire::{encode, frame};

verus! {

/// The temperature the plant starts at.
pub const INITIAL_TEMPERATURE: Temperature = 25;

/// The simulated plant: the temperature at the sensor and the state of the pump.
#[derive(Clone, Copy, Debug, PartialEq, Eq, Structural)]
pub struct Plant {
    /// The temperature that the sensor reports.
    pub temperature: Temperature,
    /// The state that the pump is in.
    pub pump_state: PumpState,
}

impl Plant {
    /// The plant after one step of simulated time: it warms by one degree while the
    /// pump is off and cools by one degree while the pump runs.
    pub open spec fn stepped(self) -> Plant {
        match self.pump_state {
            PumpState::Off => Plant { temperature: (self.temperature + 1) as i8, ..self },
            PumpState::On => Plant { temperature: (self.temperature - 1) as i8, ..self },
        }
    }

    /// Whether one more step keeps the temperature within what a sample can express.
    pub open spec fn can_step(self) -> bool {
        match self.pump_state {
            PumpState::Off => self.temperature < i8::MAX,
            PumpState::On => self.temperature > i8::MIN,
        }
    }

    /// What the sensor answers to a command. It does not change the plant.
    pub open spec fn sensor_answer(self, command: temperature::ToPeripheral) -> temperature::FromPeripheral {
        match command {
            temperature::ToPeripheral::Read => temperature::FromPeripheral::Temperature(
                self.temperature,
            ),
        }
    }

    /// What a command makes of the plant and what the pump answers to it: a command to
    /// set the state is obeyed, and either command is answered with the state the pump
    /// is then in.
    pub open spec fn pump_answer(self, command: pump::ToPeripheral) -> (Plant, pump::FromPeripheral) {
        match command {
            pump::ToPeripheral::SetState(state) => (
                Plant { pump_state: state, ..self },
                pump::FromPeripheral::PumpState(state),
            ),
            pump::ToPeripheral::Get => (self, pump::FromPeripheral::PumpState(self.pump_state)),
        }
    }

    /// The sensor's end of the link, for one arrival of bytes: the bytes left buffered
    /// and the frame to send back, if a whole command has arrived.
    pub open spec fn sensor_service(self, buffered: Seq<u8>, received: Seq<u8>) -> (
        Seq<u8>,
        Result<Option<Seq<u8>>, LinkError>,
    ) {
        let (buffered, result) = reception::<temperature::ToPeripheral>(buffered, received, LINK_BUFFER_LEN as nat);
        (
            buffered,
            match result {
                Ok(Some(command)) => Ok(Some(frame(self.sensor_answer(command)))),
                Ok(None) => Ok(None),
                Err(error) => Err(error),
            },
        )
    }

    /// The pump's end of the link, for one arrival of bytes: the plant afterwards, the
    /// bytes left buffered and the frame to send back, if a whole command has arrived.
    pub open spec fn pump_service(self, buffered: Seq<u8>, received: Seq<u8>) -> (
        Plant,
        Seq<u8>,
        Result<Option<Seq<u8>>, LinkError>,
    ) {
        let (buffered, result) = reception::<pump::ToPeripheral>(buffered, received, LINK_BUFFER_LEN as nat);
        match result {
            Ok(Some(command)) => (
                self.pump_answer(command).0,
                buffered,
                Ok(Some(frame(self.pump_answer(command).1))),
            ),
            Ok(None) => (self, buffered, Ok(None)),
            Err(error) => (self, buffered, Err(error)),
        }
    }

    /// Creates the plant at [`INITIAL_TEMPERATURE`] with the pump off.
    pub fn new() -> (plant: Plant)
        ensures
            plant == (Plant { temperature: INITIAL_TEMPERATURE, pump_state: PumpState::Off }),
    {
        Plant { temperature: INITIAL_TEMPERATURE, pump_state: PumpState::Off }
    }

    /// Advances the plant by one step of simulated time.
    pub fn simulate(&mut self)
        requires
            old(self).can_step(),
        ensures
            *final(self) == old(self).stepped(),
    {
        match self.pump_state {
            PumpState::Off => {
                self.temperature = self.temperature + 1;
            },
            PumpState::On => {
                self.temperature = self.temperature - 1;
            },
        }
    }

    /// Serves the sensor's end of the link: takes in `received`, and when a whole
    /// command is buffered, consumes it and returns the frame of the answer.
    pub fn serve_sensor(&self, buffer: &mut FramingBuffer<LINK_BUFFER_LEN>, received: &[u8]) -> (result: Result<
        Option<Vec<u8>>,
        LinkError,
    >)
        ensures
            final(buffer)@ == self.sensor_service(old(buffer)@, received@).0,
            match result {
                Ok(Some(bytes)) => self.sensor_service(old(buffer)@, received@).1 == Ok::<
                    Option<Seq<u8>>,
                    LinkError,
                >(Some(bytes@)),
                Ok(None) => self.sensor_service(old(buffer)@, received@).1 == Ok::<
                    Option<Seq<u8>>,
                    LinkError,
                >(None),
                Err(error) => self.sensor_service(old(buffer)@, received@).1 == Err::<
                    Option<Seq<u8>>,
                    LinkError,
                >(error),
            },
    {
        match receive::<temperature::ToPeripheral, LINK_BUFFER_LEN>(buffer, received) {
            Ok(Some(temperature::ToPeripheral::Read)) => {
                Ok(Some(encode(&temperature::FromPeripheral::Temperature(self.temperature))))
            },
            Ok(None) => Ok(None),
            Err(error) => Err(error),
        }
    }

    /// Serves the pump's end of the link: takes in `received`, and when a whole command
    /// is buffered, consumes it, obeys it and returns the frame of the answer.
    pub fn serve_pump(&mut self, buffer: &mut FramingBuffer<LINK_BUFFER_LEN>, received: &[u8]) -> (result:
        Result<Option<Vec<u8>>, LinkError>)
        ensures
            *final(self) == old(self).pump_service(old(buffer)@, received@).0,
            final(buffer)@ == old(self).pump_service(old(buffer)@, received@).1,
            match result {
                Ok(Some(bytes)) => old(self).pump_service(old(buffer)@, received@).2 == Ok::<
                    Option<Seq<u8>>,
                    LinkError,
                >(Some(bytes@)),
                Ok(None) => old(self).pump_service(old(buffer)@, received@).2 == Ok::<
                    Option<Seq<u8>>,
                    LinkError,
                >(None),
                Err(error) => old(self).pump_service(old(buffer)@, received@).2 == Err::<
                    Option<Seq<u8>>,
                    LinkError,
                >(error),
            },
    {
        match receive::<pump::ToPeripheral, LINK_BUFFER_LEN>(buffer, received) {
            Ok(Some(command)) => {
                match command {
                    pump::ToPeripheral::SetState(state) => {
                        self.pump_state = state;
                    },
                    pump::ToPeripheral::Get => {},
                }
                Ok(Some(encode(&pump::FromPeripheral::PumpState(self.pump_state))))
            },
            Ok(None) => Ok(None),
            Err(error) => Err(error),
        }
    }
}

} // verus!
