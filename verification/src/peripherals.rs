//! The drivers of the two links, as state machines.
//!
//! A driver never waits and never touches hardware. The program that owns the link tells
//! it what has happened, as an [`Event`], and the driver answers with what to do next, as
//! an [`Action`]. Between the two it moves through the states of an exchange:
//!
//! - *idle*: no request is outstanding;
//! - *awaiting data*: a command has been sent and its answer has not been decoded;
//! - *parsing*: a wake has brought bytes, which are taken into the framing buffer and
//!   decoded from its front. A whole frame ends the exchange with a result, the beginning
//!   of one leads back to *awaiting data*, and anything else ends the exchange with a
//!   failure.
//!
//! A link has one outstanding request at most.

use vstd::prelude::*;

pub mod pump;
pub mod temperature;

verus! {

/// Capacity of the framing buffer of a link, in bytes.
pub const LINK_BUFFER_LEN: usize = 256;

/// The durations that pace a driver, in ticks of the clock that also supplies `now`.
#[derive(Clone, Copy, Debug, PartialEq, Eq, Structural)]
pub struct Timing {
    /// The shortest time from the start of one exchange to the start of the next.
    pub period: u64,
    /// The longest time an exchange may take.
    pub timeout: u64,
}

/// What has happened on a link.
#[derive(Clone, Copy, Debug, PartialEq, Eq)]
pub enum Event<'a> {
    /// It is time to start the next exchange.
    Tick,
    /// The wake signal was raised; these are the bytes that the receiver held.
    Wake(&'a [u8]),
    /// The deadline of the exchange has passed.
    Deadline,
}

/// What the owner of a link is to do next.
#[derive(Debug, PartialEq, Eq)]
pub enum Action<E> {
    /// Write `frame` to the byte sink and flush it, make sure the receiver is running,
    /// then report the first of: a wake, or `timeout` ticks having passed.
    Transmit { frame: Vec<u8>, timeout: u64 },
    /// Keep waiting, under the deadline that is already running.
    Await,
    /// The exchange has succeeded. Report a tick after `delay` ticks.
    Rest { delay: u64 },
    /// The exchange has failed. Stop driving the link and report the failure.
    Halt(E),
}

/// An [`Action`] with its frame as a sequence of bytes.
pub enum ActionView<E> {
    Transmit { frame: Seq<u8>, timeout: u64 },
    Await,
    Rest { delay: u64 },
    Halt(E),
}

impl<E> View for Action<E> {
    type V = ActionView<E>;

    open spec fn view(&self) -> ActionView<E> {
        match self {
            Action::Transmit { frame, timeout } => ActionView::Transmit {
                frame: frame@,
                timeout: *timeout,
            },
            Action::Await => ActionView::Await,
            Action::Rest { delay } => ActionView::Rest { delay: *delay },
            Action::Halt(error) => ActionView::Halt(*error),
        }
    }
}

/// How long a driver rests after an exchange that began at `started` and has succeeded
/// at `now`: what is left of `period`, if anything. A clock that reads less than
/// `started` counts as no time having passed.
pub open spec fn rest_delay(period: u64, started: u64, now: u64) -> u64 {
    let elapsed: int = if now >= started {
        now - started
    } else {
        0
    };
    if elapsed >= period {
        0
    } else {
        (period - elapsed) as u64
    }
}

/// Computes [`rest_delay`].
pub fn remaining_period(period: u64, started: u64, now: u64) -> (delay: u64)
    ensures
        delay == rest_delay(period, started, now),
{
    let elapsed = if now >= started {
        now - started
    } else {
        0
    };
    if elapsed >= period {
        0
    } else {
        period - elapsed
    }
}

/// An exchange and the rest behind it last as long as the longer of the two: the period
/// is a floor on the time between polls, however fast the peripheral replies, and a
/// slow exchange is followed by no rest at all.
pub proof fn lemma_period_is_floor(period: u64, started: u64, now: u64)
    requires
        started <= now,
    ensures
        (now - started) + rest_delay(period, started, now) == if now - started >= period {
            now - started
        } else {
            period as int
        },
{
}

} // verus!
