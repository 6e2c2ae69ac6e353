//! The driver of the temperature sensor link.

use vstd::prelude::*;
use crate::command::temperature::{FromPeripheral, ToPeripheral};
use crate::framing::{FramingBuffer, Overflow};
use crate::link::{lemma_frame_in_pieces, receive, reception, LinkError};
use crate::model::{Model, ModelView};
use crate::peripherals::{
    remaining_period, rest_delay, Action, ActionView, Event, Timing, LINK_BUFFER_LEN,
};
use crate::types::temperature::Temperature;
use crate::wire::{encode, frame, DecodeError};

verus! {

/// Why an exchange with the sensor has failed.
#[derive(Clone, Copy, Debug, PartialEq, Eq, Structural)]
pub enum Error {
    /// A request was made while another was outstanding.
    TransferInProgress,
    /// The framing buffer cannot take the bytes that have arrived.
    Ingestion(Overflow),
    /// What has arrived is not a message from the sensor.
    Deserialize(DecodeError),
    /// No message came before the deadline.
    Timeout,
}

impl Error {
    /// The failure of an exchange that a failed reception step amounts to.
    pub open spec fn of_link(error: LinkError) -> Error {
        match error {
            LinkError::Ingestion(overflow) => Error::Ingestion(overflow),
            LinkError::Deserialize(error) => Error::Deserialize(error),
        }
    }
}

/// An outstanding request to the sensor.
#[derive(Clone, Copy, Debug, PartialEq, Eq, Structural)]
pub struct Exchange {
    /// When the request was issued.
    pub started: u64,
}

/// The driver of the sensor link: the framing buffer of the link and the exchange under
/// way, if any.
#[derive(Debug)]
pub struct TempSensor {
    timing: Timing,
    command_buf: FramingBuffer<LINK_BUFFER_LEN>,
    exchange: Option<Exchange>,
}

/// What a [`TempSensor`] holds, as plain values.
pub struct TempSensorView {
    /// The durations that pace the driver.
    pub timing: Timing,
    /// The bytes in the framing buffer, oldest first.
    pub buffered: Seq<u8>,
    /// The exchange under way; `None` when the link is idle.
    pub exchange: Option<Exchange>,
}

impl TempSensorView {
    /// Starting an exchange: an idle link goes to awaiting a measurement and hands out
    /// the frame of the request; a busy link refuses.
    pub open spec fn read_temperature(self, now: u64) -> (TempSensorView, Result<Seq<u8>, Error>) {
        if self.exchange.is_some() {
            (self, Err(Error::TransferInProgress))
        } else {
            (
                TempSensorView { exchange: Some(Exchange { started: now }), ..self },
                Ok(frame(ToPeripheral::Read)),
            )
        }
    }

    /// A reception step on the link's buffer.
    pub open spec fn read_command(self, received: Seq<u8>) -> (
        TempSensorView,
        Result<Option<FromPeripheral>, Error>,
    ) {
        let (buffered, result) = reception::<FromPeripheral>(self.buffered, received, LINK_BUFFER_LEN as nat);
        (
            TempSensorView { buffered, ..self },
            match result {
                Ok(response) => Ok(response),
                Err(error) => Err(Error::of_link(error)),
            },
        )
    }

    /// A wake during an exchange: `None` while the response is incomplete, and else the
    /// result of the exchange, which is then over. A measurement is a success.
    pub open spec fn on_wake(self, received: Seq<u8>) -> (
        TempSensorView,
        Option<Result<Temperature, Error>>,
    ) {
        let (after, result) = self.read_command(received);
        match result {
            Ok(None) => (after, None),
            Ok(Some(FromPeripheral::Temperature(temperature))) => (
                TempSensorView { exchange: None, ..after },
                Some(Ok(temperature)),
            ),
            Err(error) => (TempSensorView { exchange: None, ..after }, Some(Err(error))),
        }
    }

    /// The deadline passing during an exchange: the exchange is abandoned and the
    /// buffer stays as it is.
    pub open spec fn on_timeout(self) -> TempSensorView {
        TempSensorView { exchange: None, ..self }
    }

    /// One step of the driver: the driver and the model after `event` at time `now`, and
    /// the action that the driver asks for.
    ///
    /// - On a tick a measurement is requested.
    /// - On a wake the response is awaited further, or the exchange ends. When it ends
    ///   well, the measurement goes into the model and the driver rests for what is left
    ///   of the period. When it fails, the model is left alone and the driver halts.
    /// - On the deadline the driver halts with a timeout, and the model is left alone.
    pub open spec fn run(self, model: ModelView, event: Event<'_>, now: u64) -> (
        TempSensorView,
        ModelView,
        ActionView<Error>,
    ) {
        match event {
            Event::Tick => {
                let (after, result) = self.read_temperature(now);
                match result {
                    Ok(frame) => (
                        after,
                        model,
                        ActionView::Transmit { frame, timeout: self.timing.timeout },
                    ),
                    Err(error) => (after, model, ActionView::Halt(error)),
                }
            },
            Event::Wake(received) => {
                let (after, result) = self.on_wake(received@);
                match result {
                    None => (after, model, ActionView::Await),
                    Some(Ok(temperature)) => (
                        after,
                        model.with_temperature(temperature).commit(now),
                        ActionView::Rest {
                            delay: rest_delay(
                                self.timing.period,
                                self.exchange.unwrap().started,
                                now,
                            ),
                        },
                    ),
                    Some(Err(error)) => (after, model, ActionView::Halt(error)),
                }
            },
            Event::Deadline => (self.on_timeout(), model, ActionView::Halt(Error::Timeout)),
        }
    }
}

impl View for TempSensor {
    type V = TempSensorView;

    closed spec fn view(&self) -> TempSensorView {
        TempSensorView {
            timing: self.timing,
            buffered: self.command_buf@,
            exchange: self.exchange,
        }
    }
}

impl TempSensor {
    /// Creates the driver of an idle link with an empty buffer.
    pub fn new(timing: Timing) -> (sensor: TempSensor)
        ensures
            sensor@ == (TempSensorView { timing, buffered: Seq::<u8>::empty(), exchange: None }),
    {
        TempSensor { timing, command_buf: FramingBuffer::new(), exchange: None }
    }

    /// Returns whether no request is outstanding.
    pub fn is_idle(&self) -> (idle: bool)
        ensures
            idle == self@.exchange.is_none(),
    {
        self.exchange.is_none()
    }

    /// Returns the exchange under way, if any.
    pub fn exchange(&self) -> (exchange: Option<Exchange>)
        ensures
            exchange == self@.exchange,
    {
        self.exchange
    }

    /// Returns the number of bytes in the framing buffer.
    pub fn buffered_len(&self) -> (len: usize)
        ensures
            len == self@.buffered.len(),
    {
        self.command_buf.len()
    }

    /// Encodes `command` as the frame to be written to the link.
    pub fn write_command(command: ToPeripheral) -> (bytes: Vec<u8>)
        ensures
            bytes@ == frame(command),
    {
        encode(&command)
    }

    /// Takes in the bytes that a wake has brought and tries to decode a message from
    /// the sensor.
    pub fn read_command(&mut self, received: &[u8]) -> (result: Result<
        Option<FromPeripheral>,
        Error,
    >)
        ensures
            (final(self)@, result) == old(self)@.read_command(received@),
    {
        match receive::<FromPeripheral, LINK_BUFFER_LEN>(&mut self.command_buf, received) {
            Ok(response) => Ok(response),
            Err(LinkError::Ingestion(overflow)) => Err(Error::Ingestion(overflow)),
            Err(LinkError::Deserialize(error)) => Err(Error::Deserialize(error)),
        }
    }

    /// Starts an exchange that requests a measurement, and returns the frame to be
    /// written to the link. Fails with `TransferInProgress`, and changes nothing, while
    /// another exchange is under way.
    pub fn read_temperature(&mut self, now: u64) -> (result: Result<Vec<u8>, Error>)
        ensures
            final(self)@ == old(self)@.read_temperature(now).0,
            match result {
                Ok(bytes) => old(self)@.read_temperature(now).1 == Ok::<Seq<u8>, Error>(bytes@),
                Err(error) => old(self)@.read_temperature(now).1 == Err::<Seq<u8>, Error>(error),
            },
    {
        if self.exchange.is_some() {
            return Err(Error::TransferInProgress);
        }
        self.exchange = Some(Exchange { started: now });
        Ok(Self::write_command(ToPeripheral::Read))
    }

    /// Handles a wake during an exchange. Returns `None` while the response is
    /// incomplete, and else the result of the exchange.
    pub fn on_wake(&mut self, received: &[u8]) -> (result: Option<Result<Temperature, Error>>)
        requires
            old(self)@.exchange.is_some(),
        ensures
            (final(self)@, result) == old(self)@.on_wake(received@),
    {
        match self.read_command(received) {
            Ok(None) => None,
            Ok(Some(FromPeripheral::Temperature(temperature))) => {
                self.exchange = None;
                Some(Ok(temperature))
            },
            Err(error) => {
                self.exchange = None;
                Some(Err(error))
            },
        }
    }

    /// Abandons the exchange under way because its deadline has passed, and returns the
    /// failure to report. The framing buffer is left as it is.
    pub fn on_timeout(&mut self) -> (error: Error)
        requires
            old(self)@.exchange.is_some(),
        ensures
            final(self)@ == old(self)@.on_timeout(),
            error == Error::Timeout,
    {
        self.exchange = None;
        Error::Timeout
    }

    /// Performs one step of the driver: handles `event`, which happened at time `now`,
    /// and returns what to do next.
    pub fn run(&mut self, model: &mut Model, event: Event<'_>, now: u64) -> (action: Action<Error>)
        requires
            event is Tick || old(self)@.exchange.is_some(),
        ensures
            (final(self)@, final(model)@, action@) == old(self)@.run(old(model)@, event, now),
    {
        match event {
            Event::Tick => {
                let timeout = self.timing.timeout;
                match self.read_temperature(now) {
                    Ok(frame) => Action::Transmit { frame, timeout },
                    Err(error) => Action::Halt(error),
                }
            },
            Event::Wake(received) => {
                let exchange = match self.exchange {
                    Some(exchange) => exchange,
                    None => {
                        return Action::Await;
                    },
                };
                match self.on_wake(received) {
                    None => Action::Await,
                    Some(Ok(temperature)) => {
                        model.push_temperature(temperature, now);
                        Action::Rest {
                            delay: remaining_period(self.timing.period, exchange.started, now),
                        }
                    },
                    Some(Err(error)) => Action::Halt(error),
                }
            },
            Event::Deadline => Action::Halt(self.on_timeout()),
        }
    }
}

/// Timeout. While a wake brings no whole frame, the exchange stays outstanding, nothing
/// that was buffered is lost, the model is left alone and the driver keeps waiting.
/// When the deadline then passes, the driver halts with `Timeout`: no measurement is
/// delivered, the model is still left alone, and the buffer stays as it was.
pub proof fn lemma_timeout(
    sensor: TempSensorView,
    model: ModelView,
    received: &[u8],
    now: u64,
    later: u64,
)
    requires
        sensor.exchange.is_some(),
        sensor.on_wake(received@).1.is_none(),
    ensures
        sensor.run(model, Event::Wake(received), now) == (
            TempSensorView { buffered: sensor.buffered + received@, ..sensor },
            model,
            ActionView::<Error>::Await,
        ),
        sensor.run(model, Event::Wake(received), now).0.run(model, Event::Deadline, later) == (
            TempSensorView { buffered: sensor.buffered + received@, exchange: None, ..sensor },
            model,
            ActionView::Halt(Error::Timeout),
        ),
{
}

/// A measurement ends the exchange. When the whole frame of a temperature arrives on an
/// awaiting link with an empty buffer, the frame is consumed, the temperature goes into
/// the model and the driver rests.
pub proof fn lemma_measurement(
    sensor: TempSensorView,
    model: ModelView,
    temperature: Temperature,
    received: &[u8],
    now: u64,
)
    requires
        sensor.exchange.is_some(),
        sensor.buffered.len() == 0,
        received@ == frame(FromPeripheral::Temperature(temperature)),
    ensures
        sensor.run(model, Event::Wake(received), now) == (
            TempSensorView { buffered: Seq::empty(), exchange: None, ..sensor },
            model.with_temperature(temperature).commit(now),
            ActionView::<Error>::Rest {
                delay: rest_delay(sensor.timing.period, sensor.exchange.unwrap().started, now),
            },
        ),
{
    let response = FromPeripheral::Temperature(temperature);
    lemma_frame_in_pieces(response, 0, frame(response).len(), LINK_BUFFER_LEN as nat);
    assert(frame(response).take(0) =~= sensor.buffered);
    assert(frame(response).subrange(0, frame(response).len() as int) =~= received@);
}

} // verus!
