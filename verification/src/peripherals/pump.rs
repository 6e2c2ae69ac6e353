//! The driver of the pump link.

use vstd::prelude::*;
use crate::command::pump::{Fault, FromPeripheral, ToPeripheral};
use crate::framing::{FramingBuffer, Overflow};
use crate::link::{lemma_frame_in_pieces, receive, reception, LinkError};
use crate::model::{Model, ModelView};
use crate::peripherals::{
    remaining_period, rest_delay, Action, ActionView, Event, Timing, LINK_BUFFER_LEN,
};
use crate::types::pump::PumpState;
use crate::wire::{encode, frame, DecodeError};

verus! {

/// Why an exchange with the pump has failed.
#[derive(Clone, Copy, Debug, PartialEq, Eq, Structural)]
pub enum Error {
    /// A request was made while another was outstanding.
    TransferInProgress,
    /// The framing buffer cannot take the bytes that have arrived.
    Ingestion(Overflow),
    /// What has arrived is not a message from the pump.
    Deserialize(DecodeError),
    /// No message came before the deadline.
    Timeout,
    /// The pump reports a hardware condition.
    Fault(Fault),
    /// The pump acknowledges a state other than the one commanded.
    NonConformance,
}

impl Error {
    /// The failure of an exchange that a failed reception step amounts to.
    pub open spec fn of_link(error: LinkError) -> Error {
        match error {
            LinkError::Ingestion(overflow) => Error::Ingestion(overflow),
            LinkError::Deserialize(error) => Error::Deserialize(error),
        }
    }
}

/// An outstanding request to the pump.
#[derive(Clone, Copy, Debug, PartialEq, Eq, Structural)]
pub struct Exchange {
    /// The state that the pump was commanded to.
    pub target: PumpState,
    /// When the command was issued.
    pub started: u64,
}

/// The driver of the pump link: the framing buffer of the link and the exchange under
/// way, if any.
#[derive(Debug)]
pub struct Pump {
    timing: Timing,
    command_buf: FramingBuffer<LINK_BUFFER_LEN>,
    exchange: Option<Exchange>,
}

/// What a [`Pump`] holds, as plain values.
pub struct PumpView {
    /// The durations that pace the driver.
    pub timing: Timing,
    /// The bytes in the framing buffer, oldest first.
    pub buffered: Seq<u8>,
    /// The exchange under way; `None` when the link is idle.
    pub exchange: Option<Exchange>,
}

impl PumpView {
    /// What a response means for an exchange that commanded `target`: the acknowledged
    /// state must be the commanded one, and a fault is a failure that carries its kind.
    pub open spec fn check_response(target: PumpState, response: FromPeripheral) -> Result<
        (),
        Error,
    > {
        match response {
            FromPeripheral::PumpState(state) => if state == target {
                Ok(())
            } else {
                Err(Error::NonConformance)
            },
            FromPeripheral::Fault(fault) => Err(Error::Fault(fault)),
        }
    }

    /// Starting an exchange: an idle link goes to awaiting the acknowledgement of
    /// `target` and hands out the frame of the command; a busy link refuses.
    pub open spec fn update_pump(self, target: PumpState, now: u64) -> (
        PumpView,
        Result<Seq<u8>, Error>,
    ) {
        if self.exchange.is_some() {
            (self, Err(Error::TransferInProgress))
        } else {
            (
                PumpView { exchange: Some(Exchange { target, started: now }), ..self },
                Ok(frame(ToPeripheral::SetState(target))),
            )
        }
    }

    /// A reception step on the link's buffer.
    pub open spec fn read_command(self, received: Seq<u8>) -> (
        PumpView,
        Result<Option<FromPeripheral>, Error>,
    ) {
        let (buffered, result) = reception::<FromPeripheral>(self.buffered, received, LINK_BUFFER_LEN as nat);
        (
            PumpView { buffered, ..self },
            match result {
                Ok(response) => Ok(response),
                Err(error) => Err(Error::of_link(error)),
            },
        )
    }

    /// A wake during an exchange: `None` while the response is incomplete, and else the
    /// result of the exchange, which is then over.
    pub open spec fn on_wake(self, received: Seq<u8>) -> (PumpView, Option<Result<(), Error>>) {
        let (after, result) = self.read_command(received);
        match result {
            Ok(None) => (after, None),
            Ok(Some(response)) => (
                PumpView { exchange: None, ..after },
                Some(Self::check_response(self.exchange.unwrap().target, response)),
            ),
            Err(error) => (PumpView { exchange: None, ..after }, Some(Err(error))),
        }
    }

    /// The deadline passing during an exchange: the exchange is abandoned and the
    /// buffer stays as it is.
    pub open spec fn on_timeout(self) -> PumpView {
        PumpView { exchange: None, ..self }
    }

    /// One step of the driver: the driver and the model after `event` at time `now`, and
    /// the action that the driver asks for.
    ///
    /// - On a tick the target is taken from the model's control law and commanded.
    /// - On a wake the response is awaited further, or the exchange ends. When it ends
    ///   well, the commanded state goes into the model and the driver rests for what is
    ///   left of the period. When it fails, the model is left alone and the driver halts.
    /// - On the deadline the driver halts with a timeout, and the model is left alone.
    pub open spec fn run(self, model: ModelView, event: Event<'_>, now: u64) -> (
        PumpView,
        ModelView,
        ActionView<Error>,
    ) {
        match event {
            Event::Tick => {
                let (after, result) = self.update_pump(model.pump_target(), now);
                match result {
                    Ok(frame) => (
                        after,
                        model,
                        ActionView::Transmit { frame, timeout: self.timing.timeout },
                    ),
                    Err(error) => (after, model, ActionView::Halt(error)),
                }
            },
            Event::Wake(received) => {
                let (after, result) = self.on_wake(received@);
                match result {
                    None => (after, model, ActionView::Await),
                    Some(Ok(())) => (
                        after,
                        model.with_pump_state(self.exchange.unwrap().target).commit(now),
                        ActionView::Rest {
                            delay: rest_delay(
                                self.timing.period,
                                self.exchange.unwrap().started,
                                now,
                            ),
                        },
                    ),
                    Some(Err(error)) => (after, model, ActionView::Halt(error)),
                }
            },
            Event::Deadline => (self.on_timeout(), model, ActionView::Halt(Error::Timeout)),
        }
    }
}

impl View for Pump {
    type V = PumpView;

    closed spec fn view(&self) -> PumpView {
        PumpView { timing: self.timing, buffered: self.command_buf@, exchange: self.exchange }
    }
}

impl Pump {
    /// Creates the driver of an idle link with an empty buffer.
    pub fn new(timing: Timing) -> (pump: Pump)
        ensures
            pump@ == (PumpView { timing, buffered: Seq::<u8>::empty(), exchange: None }),
    {
        Pump { timing, command_buf: FramingBuffer::new(), exchange: None }
    }

    /// Returns whether no request is outstanding.
    pub fn is_idle(&self) -> (idle: bool)
        ensures
            idle == self@.exchange.is_none(),
    {
        self.exchange.is_none()
    }

    /// Returns the exchange under way, if any.
    pub fn exchange(&self) -> (exchange: Option<Exchange>)
        ensures
            exchange == self@.exchange,
    {
        self.exchange
    }

    /// Returns the number of bytes in the framing buffer.
    pub fn buffered_len(&self) -> (len: usize)
        ensures
            len == self@.buffered.len(),
    {
        self.command_buf.len()
    }

    /// Tells what `response` means for an exchange that commanded `target`.
    pub fn check_response(target: PumpState, response: FromPeripheral) -> (result: Result<
        (),
        Error,
    >)
        ensures
            result == PumpView::check_response(target, response),
    {
        match response {
            FromPeripheral::PumpState(state) => {
                if state == target {
                    Ok(())
                } else {
                    Err(Error::NonConformance)
                }
            },
            FromPeripheral::Fault(fault) => Err(Error::Fault(fault)),
        }
    }

    /// Encodes `command` as the frame to be written to the link.
    pub fn write_command(command: ToPeripheral) -> (bytes: Vec<u8>)
        ensures
            bytes@ == frame(command),
    {
        encode(&command)
    }

    /// Takes in the bytes that a wake has brought and tries to decode a message from
    /// the pump.
    pub fn read_command(&mut self, received: &[u8]) -> (result: Result<
        Option<FromPeripheral>,
        Error,
    >)
        ensures
            (final(self)@, result) == old(self)@.read_command(received@),
    {
        match receive::<FromPeripheral, LINK_BUFFER_LEN>(&mut self.command_buf, received) {
            Ok(response) => Ok(response),
            Err(LinkError::Ingestion(overflow)) => Err(Error::Ingestion(overflow)),
            Err(LinkError::Deserialize(error)) => Err(Error::Deserialize(error)),
        }
    }

    /// Starts an exchange that commands the pump to `target`, and returns the frame to
    /// be written to the link. Fails with `TransferInProgress`, and changes nothing,
    /// while another exchange is under way.
    pub fn update_pump(&mut self, target: PumpState, now: u64) -> (result: Result<Vec<u8>, Error>)
        ensures
            final(self)@ == old(self)@.update_pump(target, now).0,
            match result {
                Ok(bytes) => old(self)@.update_pump(target, now).1 == Ok::<Seq<u8>, Error>(
                    bytes@,
                ),
                Err(error) => old(self)@.update_pump(target, now).1 == Err::<Seq<u8>, Error>(
                    error,
                ),
            },
    {
        if self.exchange.is_some() {
            return Err(Error::TransferInProgress);
        }
        self.exchange = Some(Exchange { target, started: now });
        Ok(Self::write_command(ToPeripheral::SetState(target)))
    }

    /// Handles a wake during an exchange. Returns `None` while the response is
    /// incomplete, and else the result of the exchange.
    pub fn on_wake(&mut self, received: &[u8]) -> (result: Option<Result<(), Error>>)
        requires
            old(self)@.exchange.is_some(),
        ensures
            (final(self)@, result) == old(self)@.on_wake(received@),
    {
        let target = match self.exchange {
            Some(exchange) => exchange.target,
            None => {
                return None;
            },
        };
        match self.read_command(received) {
            Ok(None) => None,
            Ok(Some(response)) => {
                self.exchange = None;
                Some(Self::check_response(target, response))
            },
            Err(error) => {
                self.exchange = None;
                Some(Err(error))
            },
        }
    }

    /// Abandons the exchange under way because its deadline has passed, and returns the
    /// failure to report. The framing buffer is left as it is.
    pub fn on_timeout(&mut self) -> (error: Error)
        requires
            old(self)@.exchange.is_some(),
        ensures
            final(self)@ == old(self)@.on_timeout(),
            error == Error::Timeout,
    {
        self.exchange = None;
        Error::Timeout
    }

    /// Performs one step of the driver: handles `event`, which happened at time `now`,
    /// and returns what to do next.
    pub fn run(&mut self, model: &mut Model, event: Event<'_>, now: u64) -> (action: Action<Error>)
        requires
            event is Tick || old(self)@.exchange.is_some(),
        ensures
            (final(self)@, final(model)@, action@) == old(self)@.run(old(model)@, event, now),
    {
        match event {
            Event::Tick => {
                let target = model.pump_target();
                let timeout = self.timing.timeout;
                match self.update_pump(target, now) {
                    Ok(frame) => Action::Transmit { frame, timeout },
                    Err(error) => Action::Halt(error),
                }
            },
            Event::Wake(received) => {
                let exchange = match self.exchange {
                    Some(exchange) => exchange,
                    None => {
                        return Action::Await;
                    },
                };
                match self.on_wake(received) {
                    None => Action::Await,
                    Some(Ok(())) => {
                        model.push_pump_state(exchange.target, now);
                        Action::Rest {
                            delay: remaining_period(self.timing.period, exchange.started, now),
                        }
                    },
                    Some(Err(error)) => Action::Halt(error),
                }
            },
            Event::Deadline => Action::Halt(self.on_timeout()),
        }
    }
}

/// Timeout. While a wake brings no whole frame, the exchange stays outstanding, nothing
/// that was buffered is lost, the model is left alone and the driver keeps waiting.
/// When the deadline then passes, the driver halts with `Timeout`: no message is
/// delivered, the model is still left alone, and the buffer stays as it was.
pub proof fn lemma_timeout(pump: PumpView, model: ModelView, received: &[u8], now: u64, later: u64)
    requires
        pump.exchange.is_some(),
        pump.on_wake(received@).1.is_none(),
    ensures
        pump.run(model, Event::Wake(received), now) == (
            PumpView { buffered: pump.buffered + received@, ..pump },
            model,
            ActionView::<Error>::Await,
        ),
        pump.run(model, Event::Wake(received), now).0.run(model, Event::Deadline, later) == (
            PumpView { buffered: pump.buffered + received@, exchange: None, ..pump },
            model,
            ActionView::Halt(Error::Timeout),
        ),
{
}

/// The acknowledgement decides. When the whole frame of a pump state arrives on an
/// awaiting link with an empty buffer, the exchange ends and the frame is consumed. If
/// the state is the commanded one, it goes into the model and the driver rests;
/// if it is any other, the driver halts with `NonConformance` and the model is left
/// alone. A fault message halts the driver with that fault.
pub proof fn lemma_acknowledgement(
    pump: PumpView,
    model: ModelView,
    response: FromPeripheral,
    received: &[u8],
    now: u64,
)
    requires
        pump.exchange.is_some(),
        pump.buffered.len() == 0,
        received@ == frame(response),
    ensures
        pump.run(model, Event::Wake(received), now).0 == (PumpView {
            buffered: Seq::empty(),
            exchange: None,
            ..pump
        }),
        response == FromPeripheral::PumpState(pump.exchange.unwrap().target) ==> pump.run(
            model,
            Event::Wake(received),
            now,
        ).1 == model.with_pump_state(pump.exchange.unwrap().target).commit(now) && pump.run(
            model,
            Event::Wake(received),
            now,
        ).2 is Rest,
        response is PumpState && response != FromPeripheral::PumpState(
            pump.exchange.unwrap().target,
        ) ==> pump.run(model, Event::Wake(received), now) == (
            PumpView { buffered: Seq::empty(), exchange: None, ..pump },
            model,
            ActionView::Halt(Error::NonConformance),
        ),
        response matches FromPeripheral::Fault(fault) ==> pump.run(
            model,
            Event::Wake(received),
            now,
        ) == (
            PumpView { buffered: Seq::empty(), exchange: None, ..pump },
            model,
            ActionView::Halt(Error::Fault(fault)),
        ),
{
    lemma_frame_in_pieces(response, 0, frame(response).len(), LINK_BUFFER_LEN as nat);
    assert(frame(response).take(0) =~= pump.buffered);
    assert(frame(response).subrange(0, frame(response).len() as int) =~= received@);
}

} // verus!
