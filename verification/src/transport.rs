//! Transport: exclusive owner of the link resources of one slot. Its state,
//! unidentified or ready to be bound, is the type of the value, so data can
//! only be exchanged through a value that went through the reset sequence.

use vstd::prelude::*;
use crate::error::{CommunicationError, GoModuleError};
use crate::frame::{
    blank, check_frame, checksum_of, frame_intact, framed, module_checksum, write_header,
    ModuleCommunicationDirection, ModuleCommunicationType, MAX_FRAME_LENGTH, MIN_FRAME_LENGTH,
};
use crate::link::{DelaySource, DuplexLink, LineState, ReadyLine, ResetLine};
use crate::trace::{
    channel_done, exchange_events, observed_level, reset_events, send_events, turn_events,
    turn_granted, LinkEvent,
};

verus! {

/// Length of the frame that makes a module leave its bootloader.
pub const BOOTMESSAGELENGTH: usize = 46;

/// Command byte of the bootloader escape, sent at offsets 0 and 2.
pub const BOOTLOADER_ESCAPE: u8 = 19;

/// Offset of the three identity bytes in the answer to the bootloader escape.
pub const IDENTITY_OFFSET: usize = 6;

/// Time the reset line is held after each edge, in milliseconds.
pub const RESET_SETTLE_MS: u32 = 100;

/// Lowest slot number of a controller.
pub const FIRST_SLOT: u8 = 1;

/// Highest slot number of a controller.
pub const LAST_SLOT: u8 = 8;

/// When the ready line gates a transfer.
#[derive(Clone, Copy, PartialEq, Eq, Structural, Debug)]
pub enum ReadyPolicy {
    /// The ready line is not consulted.
    Unchecked,
    /// The ready line is read before the turnaround delay.
    BeforeDelay,
    /// The ready line is read after the turnaround delay.
    AfterDelay,
}

/// The bytes of the bootloader escape frame.
pub open spec fn escape_frame_bytes() -> Seq<u8> {
    let command = blank(BOOTMESSAGELENGTH as nat).update(0, BOOTLOADER_ESCAPE).update(1, (BOOTMESSAGELENGTH - 1) as u8).update(
        2,
        BOOTLOADER_ESCAPE,
    );
    command.update(BOOTMESSAGELENGTH - 1, checksum_of(command, BOOTMESSAGELENGTH as int))
}

/// The three identity bytes carried by the answer to the bootloader escape.
pub open spec fn identity_of(bootmessage: Seq<u8>) -> Seq<u8> {
    bootmessage.subrange(IDENTITY_OFFSET as int, IDENTITY_OFFSET + 3)
}

/// What a transfer gated by the ready line comes to, given what reading the
/// line returned.
pub open spec fn ready_result<S, R, I>(level: Result<bool, I>) -> Result<(), GoModuleError<S, R, I>> {
    match level {
        Ok(true) => Ok(()),
        Ok(false) => Err(GoModuleError::CommunicationError(CommunicationError::ModuleUnavailable)),
        Err(e) => Err(GoModuleError::InterruptPin(e)),
    }
}

/// What the bootloader escape comes to, given what the channel returned and
/// the bytes it left in the receive buffer: the raw answer, or the failure
/// of the channel.
pub open spec fn escape_result<S, R, I>(transferred: Result<(), S>, answer: [u8; 46]) -> Result<
    [u8; 46],
    GoModuleError<S, R, I>,
> {
    match transferred {
        Ok(()) => Ok(answer),
        Err(e) => Err(GoModuleError::SPI(e)),
    }
}

/// What reading the ready line comes to, given what the line returned.
pub open spec fn level_result<S, R, I>(level: Result<bool, I>) -> Result<
    LineState,
    GoModuleError<S, R, I>,
> {
    match level {
        Ok(high) => Ok(LineState::of(high)),
        Err(e) => Err(GoModuleError::InterruptPin(e)),
    }
}

/// What driving the reset line comes to, given what the line returned.
pub open spec fn reset_result<S, R, I>(driven: Result<(), R>) -> Result<(), GoModuleError<S, R, I>> {
    match driven {
        Ok(()) => Ok(()),
        Err(e) => Err(GoModuleError::ResetPin(e)),
    }
}

/// What a one-way write comes to, given what the channel returned.
pub open spec fn write_result<S, R, I>(sent: Result<(), S>) -> Result<(), GoModuleError<S, R, I>> {
    match sent {
        Ok(()) => Ok(()),
        Err(e) => Err(GoModuleError::SPI(e)),
    }
}

/// What an exchange comes to, given what the channel returned and the bytes
/// it left in the receive buffer.
pub open spec fn exchange_result<S, R, I>(transferred: Result<(), S>, rx: Seq<u8>, len: int) -> Result<
    (),
    GoModuleError<S, R, I>,
> {
    match transferred {
        Err(e) => Err(GoModuleError::SPI(e)),
        Ok(()) => if frame_intact(rx, len) {
            Ok(())
        } else {
            Err(GoModuleError::CommunicationError(CommunicationError::ChecksumIncorrect))
        },
    }
}

/// Builds the frame that makes a module leave its bootloader.
pub fn escape_frame() -> (tx: [u8; 46])
    ensures
        tx@ == escape_frame_bytes(),
{
    let mut tx = [0u8; 46];
    tx[0] = BOOTLOADER_ESCAPE;
    tx[1] = (BOOTMESSAGELENGTH - 1) as u8;
    tx[2] = BOOTLOADER_ESCAPE;
    assert(tx@ =~= blank(BOOTMESSAGELENGTH as nat).update(
        0,
        BOOTLOADER_ESCAPE,
    ).update(1, (BOOTMESSAGELENGTH - 1) as u8).update(2, BOOTLOADER_ESCAPE));
    let checksum = module_checksum(&tx, BOOTMESSAGELENGTH);
    tx[BOOTMESSAGELENGTH - 1] = checksum;
    tx
}

/// Tells whether the answer to the bootloader escape carries the identity
/// `expected`.
pub fn identity_matches(bootmessage: &[u8; 46], expected: &[u8; 3]) -> (same: bool)
    ensures
        same == (identity_of(bootmessage@) == expected@),
{
    let same = bootmessage[IDENTITY_OFFSET] == expected[0] && bootmessage[IDENTITY_OFFSET + 1]
        == expected[1] && bootmessage[IDENTITY_OFFSET + 2] == expected[2];
    assert(same == (identity_of(bootmessage@) =~= expected@)) by {
        if same {
            assert(identity_of(bootmessage@) =~= expected@);
        } else {
            let id = identity_of(bootmessage@);
            assert(id[0] != expected@[0] || id[1] != expected@[1] || id[2] != expected@[2]);
        }
    }
    same
}

/// Tells whether the bootloader escape was answered, and by a module of the
/// identity `expected`.
pub fn identified<E>(bootmessage: &Result<[u8; 46], E>, expected: &[u8; 3]) -> (known: bool)
    ensures
        known == (bootmessage matches Ok(answer) && identity_of(answer@) == expected@),
{
    match bootmessage {
        Ok(answer) => identity_matches(answer, expected),
        Err(_) => false,
    }
}

/// Decides on a gated transfer from what reading the ready line returned: it
/// may go ahead only if the line was read high.
pub fn ready_outcome<S, R, I>(level: Result<bool, I>) -> (r: Result<(), GoModuleError<S, R, I>>)
    ensures
        r == ready_result::<S, R, I>(level),
{
    match level {
        Ok(high) => {
            if high {
                Ok(())
            } else {
                Err(GoModuleError::CommunicationError(CommunicationError::ModuleUnavailable))
            }
        },
        Err(e) => Err(GoModuleError::InterruptPin(e)),
    }
}

/// Decides on the bootloader escape from what the channel returned and the
/// received bytes: the answer is handed out as it came, unvalidated; a
/// failure of the channel is handed on.
pub fn escape_outcome<S, R, I>(transferred: Result<(), S>, answer: [u8; 46]) -> (r: Result<
    [u8; 46],
    GoModuleError<S, R, I>,
>)
    ensures
        r == escape_result::<S, R, I>(transferred, answer),
{
    match transferred {
        Ok(()) => Ok(answer),
        Err(e) => Err(GoModuleError::SPI(e)),
    }
}

/// Decides on a reading of the ready line from what the line returned.
pub fn level_outcome<S, R, I>(level: Result<bool, I>) -> (r: Result<
    LineState,
    GoModuleError<S, R, I>,
>)
    ensures
        r == level_result::<S, R, I>(level),
{
    match level {
        Ok(high) => Ok(LineState::from_level(high)),
        Err(e) => Err(GoModuleError::InterruptPin(e)),
    }
}

/// Decides on an edge of the reset line from what the line returned.
pub fn reset_outcome<S, R, I>(driven: Result<(), R>) -> (r: Result<(), GoModuleError<S, R, I>>)
    ensures
        r == reset_result::<S, R, I>(driven),
{
    match driven {
        Ok(()) => Ok(()),
        Err(e) => Err(GoModuleError::ResetPin(e)),
    }
}

/// Decides on a one-way write from what the channel returned.
pub fn write_outcome<S, R, I>(sent: Result<(), S>) -> (r: Result<(), GoModuleError<S, R, I>>)
    ensures
        r == write_result::<S, R, I>(sent),
{
    match sent {
        Ok(()) => Ok(()),
        Err(e) => Err(GoModuleError::SPI(e)),
    }
}

/// Decides on an exchange from what the channel returned and the received
/// bytes: a channel failure is handed on, a frame that is not intact is
/// `ChecksumIncorrect`, anything else is accepted.
pub fn exchange_outcome<S, R, I>(transferred: Result<(), S>, rx: &[u8], len: usize) -> (r: Result<
    (),
    GoModuleError<S, R, I>,
>)
    requires
        MIN_FRAME_LENGTH <= len <= MAX_FRAME_LENGTH,
        len <= rx@.len(),
    ensures
        r == exchange_result::<S, R, I>(transferred, rx@, len as int),
{
    match transferred {
        Err(e) => Err(GoModuleError::SPI(e)),
        Ok(()) => {
            if check_frame(rx, len) {
                Ok(())
            } else {
                Err(GoModuleError::CommunicationError(CommunicationError::ChecksumIncorrect))
            }
        },
    }
}

/// What a transport knows beside the resources it owns.
pub struct TransportState {
    /// The slot the transport belongs to, sent as the first byte of every frame.
    pub slot: u8,
    /// When the ready line gates a transfer.
    pub policy: ReadyPolicy,
}

/// A transport together with the configuration of the module driver that
/// holds it.
pub struct DriverState<C> {
    pub transport: TransportState,
    pub configuration: C,
}

/// The state of the driver that binds a transport in state `transport` with
/// `configuration`.
pub open spec fn bound_state<C>(transport: TransportState, configuration: C) -> DriverState<C> {
    DriverState { transport, configuration }
}

/// What a driver in state `bound` hands back when it gives its module up:
/// the state of the transport and the configuration.
pub open spec fn released_state<C>(bound: DriverState<C>) -> (TransportState, C) {
    (bound.transport, bound.configuration)
}

/// A transport whose module has not been identified: the slot is known,
/// nothing may be exchanged yet.
pub struct GoModuleUnknown<SPI, ResetPin, InterruptPin, Delay> {
    spi: SPI,
    reset: ResetPin,
    interrupt: InterruptPin,
    delay: Delay,
    slot: u8,
    ready_policy: ReadyPolicy,
    trace: Ghost<Seq<LinkEvent>>,
}

/// A transport whose module went through the reset sequence: frames may be
/// exchanged, and a module driver may bind it.
pub struct GoModule<SPI, ResetPin, InterruptPin, Delay> {
    spi: SPI,
    reset: ResetPin,
    interrupt: InterruptPin,
    delay: Delay,
    slot: u8,
    ready_policy: ReadyPolicy,
    trace: Ghost<Seq<LinkEvent>>,
}

impl<SPI, ResetPin, InterruptPin, Delay> View for GoModuleUnknown<SPI, ResetPin, InterruptPin, Delay> {
    type V = TransportState;

    closed spec fn view(&self) -> TransportState {
        TransportState { slot: self.slot, policy: self.ready_policy }
    }
}

impl<SPI, ResetPin, InterruptPin, Delay> View for GoModule<SPI, ResetPin, InterruptPin, Delay> {
    type V = TransportState;

    closed spec fn view(&self) -> TransportState {
        TransportState { slot: self.slot, policy: self.ready_policy }
    }
}

impl<SPI, ResetPin, InterruptPin, Delay> GoModuleUnknown<SPI, ResetPin, InterruptPin, Delay> where
    SPI: DuplexLink,
    ResetPin: ResetLine,
    InterruptPin: ReadyLine,
    Delay: DelaySource,
 {
    /// Every use this transport made of its resources since it was created,
    /// in order.
    pub closed spec fn trace(&self) -> Seq<LinkEvent> {
        self.trace@
    }

    /// The duplex channel this transport owns.
    pub closed spec fn link(&self) -> SPI {
        self.spi
    }

    /// The ready line this transport owns.
    pub closed spec fn ready_line(&self) -> InterruptPin {
        self.interrupt
    }

    /// The reset line this transport owns.
    pub closed spec fn reset_line(&self) -> ResetPin {
        self.reset
    }

    /// The delay source this transport owns.
    pub closed spec fn delay_source(&self) -> Delay {
        self.delay
    }

    /// Takes ownership of the resources of slot `slot`, without using them.
    /// The ready line is read before the turnaround delay of every transfer.
    pub fn new(spi: SPI, reset: ResetPin, interrupt: InterruptPin, delay: Delay, slot: u8) -> (unknown:
        Self)
        requires
            FIRST_SLOT <= slot <= LAST_SLOT,
        ensures
            unknown@ == (TransportState { slot, policy: ReadyPolicy::BeforeDelay }),
            unknown.trace() == Seq::<LinkEvent>::empty(),
            unknown.link() == spi,
            unknown.reset_line() == reset,
            unknown.ready_line() == interrupt,
            unknown.delay_source() == delay,
    {
        GoModuleUnknown {
            spi,
            reset,
            interrupt,
            delay,
            slot,
            ready_policy: ReadyPolicy::BeforeDelay,
            trace: Ghost(Seq::empty()),
        }
    }

    /// Chooses when the ready line gates a transfer.
    pub fn with_ready_policy(self, ready_policy: ReadyPolicy) -> (unknown: Self)
        ensures
            unknown@ == (TransportState { slot: self@.slot, policy: ready_policy }),
            unknown.trace() == self.trace(),
            unknown.link() == self.link(),
            unknown.reset_line() == self.reset_line(),
            unknown.ready_line() == self.ready_line(),
            unknown.delay_source() == self.delay_source(),
    {
        GoModuleUnknown {
            spi: self.spi,
            reset: self.reset,
            interrupt: self.interrupt,
            delay: self.delay,
            slot: self.slot,
            ready_policy,
            trace: self.trace,
        }
    }

    /// The slot this transport belongs to.
    pub fn slot(&self) -> (slot: u8)
        ensures
            slot == self@.slot,
    {
        self.slot
    }

    /// Resets the module: drives the reset line low, then high, and lets it
    /// settle for 100 ms after each edge. The transport is ready for a
    /// driver if and only if both edges succeed; at the first edge that
    /// fails the sequence stops and the transport comes back unidentified,
    /// with its slot, channel and ready line untouched.
    pub fn module_reset(self) -> (r: Result<
        GoModule<SPI, ResetPin, InterruptPin, Delay>,
        GoModuleUnknown<SPI, ResetPin, InterruptPin, Delay>,
    >)
        ensures
            match r {
                Ok(module) => {
                    &&& module@ == self@
                    &&& module.trace() == self.trace() + reset_events(true, true)
                    &&& module.link() == self.link()
                    &&& module.ready_line() == self.ready_line()
                },
                Err(unknown) => {
                    &&& unknown@ == self@
                    &&& unknown.trace() == self.trace() + reset_events(false, false)
                        || unknown.trace() == self.trace() + reset_events(true, false)
                    &&& unknown.link() == self.link()
                    &&& unknown.ready_line() == self.ready_line()
                },
            },
    {
        let mut unknown = self;
        let low = unknown.reset.set_state(LineState::Low);
        unknown.trace = Ghost(
            unknown.trace@.push(LinkEvent::Reset { state: LineState::Low, done: low is Ok }),
        );
        if low.is_err() {
            assert(unknown.trace@ =~= self.trace() + reset_events(false, false));
            return Err(unknown);
        }
        unknown.delay.delay_ms(RESET_SETTLE_MS);
        let high = unknown.reset.set_state(LineState::High);
        unknown.trace = Ghost(
            unknown.trace@.push(LinkEvent::DelayMs { ms: RESET_SETTLE_MS }).push(
                LinkEvent::Reset { state: LineState::High, done: high is Ok },
            ),
        );
        if high.is_err() {
            assert(unknown.trace@ =~= self.trace() + reset_events(true, false));
            return Err(unknown);
        }
        unknown.delay.delay_ms(RESET_SETTLE_MS);
        unknown.trace = Ghost(unknown.trace@.push(LinkEvent::DelayMs { ms: RESET_SETTLE_MS }));
        assert(unknown.trace@ =~= self.trace() + reset_events(true, true));
        Ok(
            GoModule {
                spi: unknown.spi,
                reset: unknown.reset,
                interrupt: unknown.interrupt,
                delay: unknown.delay,
                slot: unknown.slot,
                ready_policy: unknown.ready_policy,
                trace: unknown.trace,
            },
        )
    }
}

impl<SPI, ResetPin, InterruptPin, Delay> GoModule<SPI, ResetPin, InterruptPin, Delay> where
    SPI: DuplexLink,
    ResetPin: ResetLine,
    InterruptPin: ReadyLine,
    Delay: DelaySource,
 {
    /// Every use this transport made of its resources since it was created,
    /// in order.
    pub closed spec fn trace(&self) -> Seq<LinkEvent> {
        self.trace@
    }

    /// The duplex channel this transport owns.
    pub closed spec fn link(&self) -> SPI {
        self.spi
    }

    /// The ready line this transport owns.
    pub closed spec fn ready_line(&self) -> InterruptPin {
        self.interrupt
    }

    /// The reset line this transport owns.
    pub closed spec fn reset_line(&self) -> ResetPin {
        self.reset
    }

    /// The delay source this transport owns.
    pub closed spec fn delay_source(&self) -> Delay {
        self.delay
    }

    /// The slot this transport belongs to.
    pub fn slot(&self) -> (slot: u8)
        ensures
            slot == self@.slot,
    {
        self.slot
    }

    /// Gives up the right to exchange frames, without using any resource.
    /// Every resource and the slot move on to the unidentified transport.
    pub fn degrade(self) -> (unknown: GoModuleUnknown<SPI, ResetPin, InterruptPin, Delay>)
        ensures
            unknown@ == self@,
            unknown.trace() == self.trace(),
            unknown.link() == self.link(),
            unknown.reset_line() == self.reset_line(),
            unknown.ready_line() == self.ready_line(),
            unknown.delay_source() == self.delay_source(),
    {
        GoModuleUnknown {
            spi: self.spi,
            reset: self.reset,
            interrupt: self.interrupt,
            delay: self.delay,
            slot: self.slot,
            ready_policy: self.ready_policy,
            trace: self.trace,
        }
    }

    /// Sends the bootloader escape frame in one transfer, without waiting
    /// for the module's turn, and hands back the raw answer for the caller
    /// to inspect. Only a failure of the channel is an error; the answer is
    /// not validated here.
    pub fn escape_module_bootloader(&mut self) -> (r: Result<
        [u8; 46],
        GoModuleError<SPI::Error, ResetPin::Error, InterruptPin::Error>,
    >)
        ensures
            final(self)@ == old(self)@,
            final(self).reset_line() == old(self).reset_line(),
            final(self).ready_line() == old(self).ready_line(),
            final(self).delay_source() == old(self).delay_source(),
            final(self).trace().len() == old(self).trace().len() + 1,
            final(self).trace().drop_last() == old(self).trace(),
            final(self).trace().last() matches LinkEvent::Transfer { sent, received, done } && {
                &&& sent == escape_frame_bytes()
                &&& received.len() == BOOTMESSAGELENGTH
                &&& done == (r is Ok)
                &&& r matches Ok(answer) ==> received == answer@
            },
            r matches Err(e) ==> e is SPI,
    {
        let tx = escape_frame();
        let mut rx = [0u8; 46];
        let transferred = self.spi.transfer(&mut rx, &tx);
        self.trace = Ghost(
            self.trace@.push(
                LinkEvent::Transfer { sent: tx@, received: rx@, done: transferred is Ok },
            ),
        );
        assert(self.trace@.drop_last() =~= old(self).trace());
        escape_outcome(transferred, rx)
    }

    /// Waits out the turnaround delay and consults the ready line as the
    /// policy says.
    fn await_turn(&mut self, delay_us: u32) -> (r: Result<
        (),
        GoModuleError<SPI::Error, ResetPin::Error, InterruptPin::Error>,
    >)
        ensures
            final(self)@ == old(self)@,
            final(self).link() == old(self).link(),
            final(self).reset_line() == old(self).reset_line(),
            final(self).trace() == old(self).trace() + turn_events(
                old(self)@.policy,
                delay_us,
                observed_level(r),
            ),
            (r is Ok) == turn_granted(old(self)@.policy, observed_level(r)),
            r matches Err(e) ==> {
                &&& old(self)@.policy != ReadyPolicy::Unchecked
                &&& e is InterruptPin || e == GoModuleError::<
                    SPI::Error,
                    ResetPin::Error,
                    InterruptPin::Error,
                >::CommunicationError(CommunicationError::ModuleUnavailable)
            },
    {
        match self.ready_policy {
            ReadyPolicy::Unchecked => {
                self.delay.delay_us(delay_us);
                self.trace = Ghost(self.trace@.push(LinkEvent::DelayUs { us: delay_us }));
                assert(self.trace@ =~= old(self).trace() + turn_events(
                    ReadyPolicy::Unchecked,
                    delay_us,
                    Some(true),
                ));
                Ok(())
            },
            ReadyPolicy::BeforeDelay => {
                let level = self.interrupt.is_high();
                let r = ready_outcome(level);
                self.trace = Ghost(
                    self.trace@.push(LinkEvent::Ready { level: observed_level(r) }),
                );
                match r {
                    Ok(()) => {
                        self.delay.delay_us(delay_us);
                        self.trace = Ghost(self.trace@.push(LinkEvent::DelayUs { us: delay_us }));
                        assert(self.trace@ =~= old(self).trace() + turn_events(
                            ReadyPolicy::BeforeDelay,
                            delay_us,
                            Some(true),
                        ));
                        Ok(())
                    },
                    Err(e) => {
                        assert(self.trace@ =~= old(self).trace() + turn_events(
                            ReadyPolicy::BeforeDelay,
                            delay_us,
                            observed_level(r),
                        ));
                        Err(e)
                    },
                }
            },
            ReadyPolicy::AfterDelay => {
                self.delay.delay_us(delay_us);
                let level = self.interrupt.is_high();
                let r = ready_outcome(level);
                self.trace = Ghost(
                    self.trace@.push(LinkEvent::DelayUs { us: delay_us }).push(
                        LinkEvent::Ready { level: observed_level(r) },
                    ),
                );
                assert(self.trace@ =~= old(self).trace() + turn_events(
                    ReadyPolicy::AfterDelay,
                    delay_us,
                    observed_level(r),
                ));
                r
            },
        }
    }

    /// One-way write: fills in the header and checksum of the frame of `len`
    /// bytes in `tx`, waits for the module's turn and, if it is granted,
    /// hands the whole buffer to the channel. No answer is awaited. The
    /// result is `Ok` if and only if the turn was granted and the channel
    /// reported success.
    pub fn send_spi<const N: usize>(
        &mut self,
        direction: ModuleCommunicationDirection,
        module_id: u8,
        message_type: ModuleCommunicationType,
        message_index: u8,
        tx: &mut [u8; N],
        len: usize,
        delay_us: u32,
    ) -> (r: Result<(), GoModuleError<SPI::Error, ResetPin::Error, InterruptPin::Error>>)
        requires
            MIN_FRAME_LENGTH <= len <= MAX_FRAME_LENGTH,
            len <= N,
        ensures
            final(self)@ == old(self)@,
            final(self).reset_line() == old(self).reset_line(),
            final(tx)@ == framed(
                old(tx)@,
                old(self)@.slot,
                len as int,
                direction,
                module_id,
                message_type,
                message_index,
            ),
            final(self).trace() == old(self).trace() + send_events(
                old(self)@.policy,
                delay_us,
                final(tx)@,
                observed_level(r),
                r is Ok,
            ),
            r matches Err(e) ==> {
                ||| e is SPI
                ||| old(self)@.policy != ReadyPolicy::Unchecked && (e is InterruptPin || e
                    == GoModuleError::<
                    SPI::Error,
                    ResetPin::Error,
                    InterruptPin::Error,
                >::CommunicationError(CommunicationError::ModuleUnavailable))
            },
    {
        write_header(tx, self.slot, len, direction, module_id, message_type, message_index);
        match self.await_turn(delay_us) {
            Ok(()) => {
                let sent = self.spi.write(tx);
                self.trace = Ghost(
                    self.trace@.push(LinkEvent::Write { sent: tx@, done: sent is Ok }),
                );
                write_outcome(sent)
            },
            Err(e) => Err(e),
        }
    }

    /// Exchange: fills in the header and checksum of the frame of `len` bytes
    /// in `tx`, waits for the module's turn and, if it is granted, transfers
    /// both buffers and checks that the answer in `rx` is intact. The result
    /// is `Ok` if and only if the turn was granted, the channel reported
    /// success and the answer is intact; an answer that is not intact is
    /// `ChecksumIncorrect`.
    pub fn send_receive_spi<const N: usize>(
        &mut self,
        direction: ModuleCommunicationDirection,
        module_id: u8,
        message_type: ModuleCommunicationType,
        message_index: u8,
        tx: &mut [u8; N],
        rx: &mut [u8; N],
        len: usize,
        delay_us: u32,
    ) -> (r: Result<(), GoModuleError<SPI::Error, ResetPin::Error, InterruptPin::Error>>)
        requires
            MIN_FRAME_LENGTH <= len <= MAX_FRAME_LENGTH,
            len <= N,
        ensures
            final(self)@ == old(self)@,
            final(self).reset_line() == old(self).reset_line(),
            final(tx)@ == framed(
                old(tx)@,
                old(self)@.slot,
                len as int,
                direction,
                module_id,
                message_type,
                message_index,
            ),
            final(self).trace() == old(self).trace() + exchange_events(
                old(self)@.policy,
                delay_us,
                final(tx)@,
                final(rx)@,
                observed_level(r),
                channel_done(r),
            ),
            !turn_granted(old(self)@.policy, observed_level(r)) ==> final(rx)@ == old(rx)@,
            r is Ok ==> frame_intact(final(rx)@, len as int),
            r matches Err(e) ==> {
                ||| e is SPI
                ||| !frame_intact(final(rx)@, len as int) && e == GoModuleError::<
                    SPI::Error,
                    ResetPin::Error,
                    InterruptPin::Error,
                >::CommunicationError(CommunicationError::ChecksumIncorrect)
                ||| old(self)@.policy != ReadyPolicy::Unchecked && (e is InterruptPin || e
                    == GoModuleError::<
                    SPI::Error,
                    ResetPin::Error,
                    InterruptPin::Error,
                >::CommunicationError(CommunicationError::ModuleUnavailable))
            },
    {
        write_header(tx, self.slot, len, direction, module_id, message_type, message_index);
        match self.await_turn(delay_us) {
            Ok(()) => {
                let transferred = self.spi.transfer(rx, tx);
                self.trace = Ghost(
                    self.trace@.push(
                        LinkEvent::Transfer {
                            sent: tx@,
                            received: rx@,
                            done: transferred is Ok,
                        },
                    ),
                );
                exchange_outcome(transferred, rx, len)
            },
            Err(e) => Err(e),
        }
    }

    /// Reads the level of the ready line.
    pub fn get_module_interrupt_state(&mut self) -> (r: Result<
        LineState,
        GoModuleError<SPI::Error, ResetPin::Error, InterruptPin::Error>,
    >)
        ensures
            final(self)@ == old(self)@,
            final(self).link() == old(self).link(),
            final(self).reset_line() == old(self).reset_line(),
            final(self).delay_source() == old(self).delay_source(),
            final(self).trace() == old(self).trace().push(
                LinkEvent::Ready {
                    level: match r {
                        Ok(state) => Some(state == LineState::High),
                        Err(_) => None,
                    },
                },
            ),
            r matches Err(e) ==> e is InterruptPin,
    {
        let level = self.interrupt.is_high();
        self.trace = Ghost(
            self.trace@.push(
                LinkEvent::Ready {
                    level: match level {
                        Ok(high) => Some(high),
                        Err(_) => None,
                    },
                },
            ),
        );
        level_outcome(level)
    }

    /// Drives the reset line to `state`.
    pub fn set_module_reset(&mut self, state: LineState) -> (r: Result<
        (),
        GoModuleError<SPI::Error, ResetPin::Error, InterruptPin::Error>,
    >)
        ensures
            final(self)@ == old(self)@,
            final(self).link() == old(self).link(),
            final(self).ready_line() == old(self).ready_line(),
            final(self).delay_source() == old(self).delay_source(),
            final(self).trace() == old(self).trace().push(
                LinkEvent::Reset { state, done: r is Ok },
            ),
            r matches Err(e) ==> e is ResetPin,
    {
        let driven = self.reset.set_state(state);
        self.trace = Ghost(self.trace@.push(LinkEvent::Reset { state, done: driven is Ok }));
        reset_outcome(driven)
    }

    /// Pauses for at least `ms` milliseconds on the delay source of the
    /// slot.
    pub fn delay_ms(&mut self, ms: u32)
        ensures
            final(self)@ == old(self)@,
            final(self).link() == old(self).link(),
            final(self).reset_line() == old(self).reset_line(),
            final(self).ready_line() == old(self).ready_line(),
            final(self).trace() == old(self).trace().push(LinkEvent::DelayMs { ms }),
    {
        self.delay.delay_ms(ms);
        self.trace = Ghost(self.trace@.push(LinkEvent::DelayMs { ms }));
    }

    /// Pauses for at least `us` microseconds on the delay source of the
    /// slot.
    pub fn delay_us(&mut self, us: u32)
        ensures
            final(self)@ == old(self)@,
            final(self).link() == old(self).link(),
            final(self).reset_line() == old(self).reset_line(),
            final(self).ready_line() == old(self).ready_line(),
            final(self).trace() == old(self).trace().push(LinkEvent::DelayUs { us }),
    {
        self.delay.delay_us(us);
        self.trace = Ghost(self.trace@.push(LinkEvent::DelayUs { us }));
    }
}

} // verus!
