//! A model of what a transport does on the resources of its slot: the uses
//! it makes of them, in order, each with what it came to. The contracts of
//! the transport and of the drivers say which uses an operation adds.

use vstd::prelude::*;
use crate::error::{CommunicationError, GoModuleError};
use crate::link::LineState;
use crate::transport::{identity_of, ReadyPolicy, RESET_SETTLE_MS};

verus! {

/// One use of a resource of the slot.
pub ghost enum LinkEvent {
    /// The reset line was driven to `state`; `done` tells whether it obeyed.
    Reset { state: LineState, done: bool },
    /// The delay source paused for `ms` milliseconds.
    DelayMs { ms: u32 },
    /// The delay source paused for `us` microseconds.
    DelayUs { us: u32 },
    /// The ready line was read: high, low, or not at all because it failed.
    Ready { level: Option<bool> },
    /// `sent` was handed to the channel for a duplex transfer that left
    /// `received` in the receive buffer; `done` tells whether the channel
    /// reported success.
    Transfer { sent: Seq<u8>, received: Seq<u8>, done: bool },
    /// `sent` was handed to the channel for a one-way write; `done` tells
    /// whether the channel reported success.
    Write { sent: Seq<u8>, done: bool },
}

/// The uses a reset makes: the line is driven low, held, driven high and
/// held again. The sequence ends at the first edge that fails.
pub open spec fn reset_events(low_done: bool, high_done: bool) -> Seq<LinkEvent> {
    let low = seq![LinkEvent::Reset { state: LineState::Low, done: low_done }];
    if !low_done {
        low
    } else {
        let high = low.push(LinkEvent::DelayMs { ms: RESET_SETTLE_MS }).push(
            LinkEvent::Reset { state: LineState::High, done: high_done },
        );
        if !high_done {
            high
        } else {
            high.push(LinkEvent::DelayMs { ms: RESET_SETTLE_MS })
        }
    }
}

/// Whether a transfer may go ahead under `policy` when the ready line, if
/// it is read at all, reads `level`.
pub open spec fn turn_granted(policy: ReadyPolicy, level: Option<bool>) -> bool {
    policy == ReadyPolicy::Unchecked || level == Some(true)
}

/// The uses made while waiting for the module's turn: the turnaround delay
/// and, as `policy` says, a reading of the ready line before or after it. A
/// line read before the delay and found not high spares the delay.
pub open spec fn turn_events(policy: ReadyPolicy, delay_us: u32, level: Option<bool>) -> Seq<
    LinkEvent,
> {
    match policy {
        ReadyPolicy::Unchecked => seq![LinkEvent::DelayUs { us: delay_us }],
        ReadyPolicy::BeforeDelay => if level == Some(true) {
            seq![LinkEvent::Ready { level }, LinkEvent::DelayUs { us: delay_us }]
        } else {
            seq![LinkEvent::Ready { level }]
        },
        ReadyPolicy::AfterDelay => seq![
            LinkEvent::DelayUs { us: delay_us },
            LinkEvent::Ready { level },
        ],
    }
}

/// The uses a one-way write makes: the wait for the module's turn and, if
/// the turn is granted, the write of `frame`.
pub open spec fn send_events(
    policy: ReadyPolicy,
    delay_us: u32,
    frame: Seq<u8>,
    level: Option<bool>,
    done: bool,
) -> Seq<LinkEvent> {
    if turn_granted(policy, level) {
        turn_events(policy, delay_us, level).push(LinkEvent::Write { sent: frame, done })
    } else {
        turn_events(policy, delay_us, level)
    }
}

/// The uses an exchange makes: the wait for the module's turn and, if the
/// turn is granted, the transfer of `frame` that leaves `received`.
pub open spec fn exchange_events(
    policy: ReadyPolicy,
    delay_us: u32,
    frame: Seq<u8>,
    received: Seq<u8>,
    level: Option<bool>,
    done: bool,
) -> Seq<LinkEvent> {
    if turn_granted(policy, level) {
        turn_events(policy, delay_us, level).push(
            LinkEvent::Transfer { sent: frame, received, done },
        )
    } else {
        turn_events(policy, delay_us, level)
    }
}

/// What the ready line read, as far as the result of a transfer tells: a
/// failed line, a line found low, or, for every other result, a line found
/// high.
pub open spec fn observed_level<T, S, R, I>(r: Result<T, GoModuleError<S, R, I>>) -> Option<bool> {
    match r {
        Err(GoModuleError::InterruptPin(_)) => None,
        Err(GoModuleError::CommunicationError(CommunicationError::ModuleUnavailable)) => Some(
            false,
        ),
        _ => Some(true),
    }
}

/// Whether the channel reported success, as far as the result of a transfer
/// tells: every result but a channel failure.
pub open spec fn channel_done<T, S, R, I>(r: Result<T, GoModuleError<S, R, I>>) -> bool {
    !(r matches Err(GoModuleError::SPI(_)))
}

/// `added` is what some one-way write of `frame` adds, however the ready
/// line and the channel behave.
pub open spec fn is_send_run(
    added: Seq<LinkEvent>,
    policy: ReadyPolicy,
    delay_us: u32,
    frame: Seq<u8>,
) -> bool {
    ||| added == send_events(policy, delay_us, frame, Some(true), true)
    ||| added == send_events(policy, delay_us, frame, Some(true), false)
    ||| added == send_events(policy, delay_us, frame, Some(false), false)
    ||| added == send_events(policy, delay_us, frame, None, false)
}

/// The last use in `events` is a write that the channel reported done.
pub open spec fn write_done(events: Seq<LinkEvent>) -> bool {
    &&& events.len() > 0
    &&& events.last() matches LinkEvent::Write { done, .. } && done
}

/// The bytes the last use in `events` received, if it was a transfer.
pub open spec fn last_received(events: Seq<LinkEvent>) -> Seq<u8> {
    if events.len() > 0 {
        match events.last() {
            LinkEvent::Transfer { received, .. } => received,
            _ => Seq::empty(),
        }
    } else {
        Seq::empty()
    }
}

/// The first use in `added` is a transfer that the channel reported done and
/// that received an answer carrying `identity` at the place of the module
/// identity: a bootloader escape answered by a module of that identity.
pub open spec fn escape_identified(added: Seq<LinkEvent>, identity: Seq<u8>) -> bool {
    &&& added.len() >= 1
    &&& added[0] matches LinkEvent::Transfer { received, done, .. } && done && identity_of(received)
        == identity
}

/// What was added to `before` to get `after`, where `after` continues
/// `before`.
pub open spec fn added_events(before: Seq<LinkEvent>, after: Seq<LinkEvent>) -> Seq<LinkEvent> {
    after.skip(before.len() as int)
}

/// `after` continues `before`: nothing that was recorded is lost or changed.
pub open spec fn continues(before: Seq<LinkEvent>, after: Seq<LinkEvent>) -> bool {
    before.is_prefix_of(after)
}

/// Appending to a trace continues it by what was appended.
pub proof fn lemma_appended(before: Seq<LinkEvent>, added: Seq<LinkEvent>)
    ensures
        continues(before, before + added),
        added_events(before, before + added) == added,
{
    assert((before + added).skip(before.len() as int) =~= added);
    assert((before + added).take(before.len() as int) =~= before);
}

/// A trace that continues a continuation of `first` continues `first`.
pub proof fn lemma_continues_on(first: Seq<LinkEvent>, second: Seq<LinkEvent>, third: Seq<LinkEvent>)
    requires
        continues(first, second),
        continues(second, third),
    ensures
        continues(first, third),
{
}

} // verus!
