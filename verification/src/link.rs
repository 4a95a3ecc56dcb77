//! The capabilities a transport consumes: a duplex byte channel, a reset
//! line, a ready line and a delay source. Nothing is promised about what an
//! implementation does; the transport is verified for every behaviour.

use vstd::prelude::*;

verus! {

/// Level of a digital line.
#[derive(Clone, Copy, PartialEq, Eq, Structural, Debug)]
pub enum LineState {
    Low,
    High,
}

impl LineState {
    /// The level that `high` stands for.
    pub open spec fn of(high: bool) -> LineState {
        if high {
            LineState::High
        } else {
            LineState::Low
        }
    }

    /// The level that `high` stands for.
    pub fn from_level(high: bool) -> (state: LineState)
        ensures
            state == LineState::of(high),
    {
        if high {
            LineState::High
        } else {
            LineState::Low
        }
    }
}

/// Full-duplex byte channel to one module.
pub trait DuplexLink {
    type Error;

    /// Sends `tx` while receiving the same number of bytes into `rx`.
    fn transfer<const N: usize>(&mut self, rx: &mut [u8; N], tx: &[u8; N]) -> Result<
        (),
        Self::Error,
    >;

    /// Sends `tx` and discards what comes back.
    fn write<const N: usize>(&mut self, tx: &[u8; N]) -> Result<(), Self::Error>;
}

/// Digital output that holds a module in reset.
pub trait ResetLine {
    type Error;

    /// Drives the line to `state`.
    fn set_state(&mut self, state: LineState) -> Result<(), Self::Error>;
}

/// Digital input on which a module signals that it is prepared to answer.
pub trait ReadyLine {
    type Error;

    /// Tells whether the line is high.
    fn is_high(&mut self) -> Result<bool, Self::Error>;
}

/// Monotonic delay source.
pub trait DelaySource {
    /// Pauses for at least `us` microseconds.
    fn delay_us(&mut self, us: u32);

    /// Pauses for at least `ms` milliseconds.
    fn delay_ms(&mut self, ms: u32);
}

} // verus!
