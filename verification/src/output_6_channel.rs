//! Driver of the six channel output module: configuration builder, frame
//! layouts, setpoints and feedback reader.

use vstd::prelude::*;
use crate::error::{CommunicationError, GoModuleError};
use crate::frame::{
    blank, check_header, frame_intact, framed, header_matches, ModuleCommunicationDirection,
    ModuleCommunicationType,
};
use crate::link::{DelaySource, DuplexLink, ReadyLine, ResetLine};
use crate::trace::{
    added_events, channel_done, continues, escape_identified, exchange_events, is_send_run,
    last_received, lemma_appended, lemma_continues_on, observed_level, reset_events, send_events,
    write_done, LinkEvent,
};
use crate::transport::{
    bound_state, escape_frame_bytes, identified, identity_of, released_state, DriverState,
    GoModule, GoModuleUnknown, ReadyPolicy, BOOTMESSAGELENGTH,
};
use crate::wire::{
    le_i16, le_u16, le_u32, read_le_i16, read_le_u16, read_le_u32, u16_le_byte, with_le_u16,
    write_le_u16,
};

verus! {

/// Length of every frame exchanged with the output module.
pub const OUTPUTMODULE6CHANNELMESSAGELENGTH: usize = 44;

/// Size of the buffers handed to the channel for the output module.
pub const OUTPUTMODULE6CHANNELBUFFERLENGTH: usize = 49;

/// Sub-device selector of the output module.
pub const OUTPUTMODULE6CHANNELMODULEID: u8 = 22;

/// Turnaround delay of the first configuration frame, in microseconds: a
/// module that just left its bootloader takes long to answer.
pub const FIRST_CONFIGURATION_DELAY_US: u32 = 500_000;

/// Turnaround delay of the second configuration frame, in microseconds.
pub const SECOND_CONFIGURATION_DELAY_US: u32 = 500;

/// The identity an output module reports when it leaves its bootloader.
pub open spec fn output_identity() -> Seq<u8> {
    seq![20u8, 20u8, 2u8]
}

/// The identity an output module reports when it leaves its bootloader.
pub fn output_module_identity() -> (id: [u8; 3])
    ensures
        id@ == output_identity(),
{
    let id: [u8; 3] = [20, 20, 2];
    assert(id@ =~= output_identity());
    id
}

/// Peak current and the time it is held before an output falls back to its
/// hold current.
#[derive(Clone, Copy, PartialEq, Eq, Structural, Debug)]
pub struct PeakAndHoldSettings {
    pub peak_time: u16,
    pub peak_current: u16,
}

impl Default for PeakAndHoldSettings {
    fn default() -> (settings: Self)
        ensures
            settings == (PeakAndHoldSettings { peak_time: 0, peak_current: 0 }),
    {
        PeakAndHoldSettings { peak_time: 0, peak_current: 0 }
    }
}

/// Selects the function of an output channel.
#[derive(Clone, Copy, PartialEq, Eq, Structural, Debug)]
pub enum OutputModule6ChannelFunc {
    Disabled,
    HalfBridge,
    LowSideDuty,
    HighSideDuty,
    LowSideBool,
    HighSideBool,
    PeakAndHold(PeakAndHoldSettings),
    Frequency,
}

impl OutputModule6ChannelFunc {
    /// The number that selects this function on the wire.
    pub open spec fn wire(self) -> u8 {
        match self {
            OutputModule6ChannelFunc::Disabled => 1,
            OutputModule6ChannelFunc::HalfBridge => 2,
            OutputModule6ChannelFunc::LowSideDuty => 3,
            OutputModule6ChannelFunc::HighSideDuty => 4,
            OutputModule6ChannelFunc::LowSideBool => 5,
            OutputModule6ChannelFunc::HighSideBool => 6,
            OutputModule6ChannelFunc::PeakAndHold(_) => 7,
            OutputModule6ChannelFunc::Frequency => 8,
        }
    }

    /// The number that selects this function on the wire.
    pub fn discriminant(&self) -> (tag: u8)
        ensures
            tag == self.wire(),
    {
        match self {
            OutputModule6ChannelFunc::Disabled => 1,
            OutputModule6ChannelFunc::HalfBridge => 2,
            OutputModule6ChannelFunc::LowSideDuty => 3,
            OutputModule6ChannelFunc::HighSideDuty => 4,
            OutputModule6ChannelFunc::LowSideBool => 5,
            OutputModule6ChannelFunc::HighSideBool => 6,
            OutputModule6ChannelFunc::PeakAndHold(_) => 7,
            OutputModule6ChannelFunc::Frequency => 8,
        }
    }
}

impl Default for OutputModule6ChannelFunc {
    fn default() -> (func: Self)
        ensures
            func == OutputModule6ChannelFunc::Disabled,
    {
        OutputModule6ChannelFunc::Disabled
    }
}

/// PWM frequency shared by a pair of adjacent channels.
#[derive(Clone, Copy, PartialEq, Eq, Structural, Debug)]
pub enum OutputModule6ChannelFrequency {
    Hz100,
    Hz200,
    Hz500,
    Hz1_000,
    Hz2_000,
    Hz5_000,
    Hz10_000,
}

impl OutputModule6ChannelFrequency {
    /// The number that selects this frequency on the wire.
    pub open spec fn wire(self) -> u8 {
        match self {
            OutputModule6ChannelFrequency::Hz100 => 1,
            OutputModule6ChannelFrequency::Hz200 => 2,
            OutputModule6ChannelFrequency::Hz500 => 3,
            OutputModule6ChannelFrequency::Hz1_000 => 4,
            OutputModule6ChannelFrequency::Hz2_000 => 5,
            OutputModule6ChannelFrequency::Hz5_000 => 6,
            OutputModule6ChannelFrequency::Hz10_000 => 7,
        }
    }

    /// The number that selects this frequency on the wire.
    pub fn code(self) -> (code: u8)
        ensures
            code == self.wire(),
    {
        match self {
            OutputModule6ChannelFrequency::Hz100 => 1,
            OutputModule6ChannelFrequency::Hz200 => 2,
            OutputModule6ChannelFrequency::Hz500 => 3,
            OutputModule6ChannelFrequency::Hz1_000 => 4,
            OutputModule6ChannelFrequency::Hz2_000 => 5,
            OutputModule6ChannelFrequency::Hz5_000 => 6,
            OutputModule6ChannelFrequency::Hz10_000 => 7,
        }
    }
}

impl Default for OutputModule6ChannelFrequency {
    fn default() -> (frequency: Self)
        ensures
            frequency == OutputModule6ChannelFrequency::Hz1_000,
    {
        OutputModule6ChannelFrequency::Hz1_000
    }
}

/// One of the six channels of the module.
#[derive(Clone, Copy, PartialEq, Eq, Structural, Debug)]
pub enum OutputModule6ChannelNum {
    One,
    Two,
    Three,
    Four,
    Five,
    Six,
}

impl OutputModule6ChannelNum {
    /// The number of this channel, counted from one.
    pub open spec fn number(self) -> u8 {
        match self {
            OutputModule6ChannelNum::One => 1,
            OutputModule6ChannelNum::Two => 2,
            OutputModule6ChannelNum::Three => 3,
            OutputModule6ChannelNum::Four => 4,
            OutputModule6ChannelNum::Five => 5,
            OutputModule6ChannelNum::Six => 6,
        }
    }

    /// The place of this channel in the configuration, counted from zero.
    pub fn index(self) -> (index: usize)
        ensures
            index == self.number() - 1,
    {
        match self {
            OutputModule6ChannelNum::One => 0,
            OutputModule6ChannelNum::Two => 1,
            OutputModule6ChannelNum::Three => 2,
            OutputModule6ChannelNum::Four => 3,
            OutputModule6ChannelNum::Five => 4,
            OutputModule6ChannelNum::Six => 5,
        }
    }
}

/// One of the three pairs of adjacent channels that share a PWM frequency.
#[derive(Clone, Copy, PartialEq, Eq, Structural, Debug)]
pub enum OutputModule6ChannelFrequencyNum {
    OneTwo,
    ThreeFour,
    FiveSix,
}

impl OutputModule6ChannelFrequencyNum {
    /// The place of this pair in the configuration, counted from zero.
    pub open spec fn pair(self) -> int {
        match self {
            OutputModule6ChannelFrequencyNum::OneTwo => 0,
            OutputModule6ChannelFrequencyNum::ThreeFour => 1,
            OutputModule6ChannelFrequencyNum::FiveSix => 2,
        }
    }

    /// The place of this pair in the configuration, counted from zero.
    pub fn index(self) -> (index: usize)
        ensures
            index == self.pair(),
    {
        match self {
            OutputModule6ChannelFrequencyNum::OneTwo => 0,
            OutputModule6ChannelFrequencyNum::ThreeFour => 1,
            OutputModule6ChannelFrequencyNum::FiveSix => 2,
        }
    }
}

/// Settings of one output channel.
#[derive(Clone, Copy, PartialEq, Eq, Structural, Debug)]
pub struct OutputModule6ChannelChannel {
    pub func: OutputModule6ChannelFunc,
    pub max_current: u16,
}

impl OutputModule6ChannelChannel {
    /// The settings of a channel that was never configured: disabled, no
    /// current allowed.
    pub open spec fn initial() -> OutputModule6ChannelChannel {
        OutputModule6ChannelChannel { func: OutputModule6ChannelFunc::Disabled, max_current: 0 }
    }

    /// The byte that packs the function of this channel, in the high four
    /// bits, with the frequency of its pair, in the low four bits.
    pub open spec fn wire_function(self, frequency: OutputModule6ChannelFrequency) -> u8 {
        (16 * self.func.wire() + frequency.wire()) as u8
    }

    /// The byte that packs the function of this channel with the frequency
    /// of its pair.
    pub fn function_byte(&self, frequency: OutputModule6ChannelFrequency) -> (byte: u8)
        ensures
            byte == self.wire_function(frequency),
    {
        let func = self.func.discriminant();
        let freq = frequency.code();
        assert(func << 4 | freq == 16 * func + freq) by (bit_vector)
            requires
                func <= 8,
                freq <= 7,
        ;
        func << 4 | freq
    }
}

impl Default for OutputModule6ChannelChannel {
    fn default() -> (channel: Self)
        ensures
            channel == OutputModule6ChannelChannel::initial(),
    {
        OutputModule6ChannelChannel { func: OutputModule6ChannelFunc::Disabled, max_current: 0 }
    }
}

/// Setpoints of the six channels: a duty cycle, a level or a frequency,
/// as the function of the channel asks.
#[derive(Clone, Copy, PartialEq, Eq, Structural, Debug)]
pub struct OutputModule6ChannelSetpoint {
    pub channel1: u16,
    pub channel2: u16,
    pub channel3: u16,
    pub channel4: u16,
    pub channel5: u16,
    pub channel6: u16,
}

/// Offset of the setpoint of channel `channel`, counted from zero, in a
/// data request.
pub open spec fn setpoint_offset(channel: int) -> int {
    6 + 6 * channel
}

/// `base` carrying the six setpoints, each low byte first at its offset.
pub open spec fn setpoint_payload(base: Seq<u8>, setpoint: OutputModule6ChannelSetpoint) -> Seq<
    u8,
> {
    let with1 = with_le_u16(base, setpoint_offset(0), setpoint.channel1);
    let with2 = with_le_u16(with1, setpoint_offset(1), setpoint.channel2);
    let with3 = with_le_u16(with2, setpoint_offset(2), setpoint.channel3);
    let with4 = with_le_u16(with3, setpoint_offset(3), setpoint.channel4);
    let with5 = with_le_u16(with4, setpoint_offset(4), setpoint.channel5);
    with_le_u16(with5, setpoint_offset(5), setpoint.channel6)
}

impl OutputModule6ChannelSetpoint {
    /// Writes the six setpoints into `tx`; every other byte is left as it is.
    pub fn serialize(&self, tx: &mut [u8])
        requires
            old(tx)@.len() >= 38,
        ensures
            final(tx)@ == setpoint_payload(old(tx)@, *self),
    {
        write_le_u16(tx, 6, self.channel1);
        write_le_u16(tx, 12, self.channel2);
        write_le_u16(tx, 18, self.channel3);
        write_le_u16(tx, 24, self.channel4);
        write_le_u16(tx, 30, self.channel5);
        write_le_u16(tx, 36, self.channel6);
    }
}

/// Feedback of the module, as the last exchange reported it.
#[derive(Clone, Copy, PartialEq, Eq, Structural, Debug)]
pub struct OutputModule6ChannelValues {
    pub temperature: i16,
    pub ground_shift: u16,
    pub error_code: u32,
    pub supply_volt: u16,
    pub channel1_cur: i16,
    pub channel1_duty: u16,
    pub channel2_cur: i16,
    pub channel2_duty: u16,
    pub channel3_cur: i16,
    pub channel3_duty: u16,
    pub channel4_cur: i16,
    pub channel4_duty: u16,
    pub channel5_cur: i16,
    pub channel5_duty: u16,
    pub channel6_cur: i16,
    pub channel6_duty: u16,
}

/// What a response to a data request decodes to: the feedback if its header
/// is that of the feedback to the request, `UnableToSerDe` otherwise.
pub open spec fn output_values_of(rx: Seq<u8>) -> Result<
    OutputModule6ChannelValues,
    CommunicationError,
> {
    if header_matches(
        rx,
        ModuleCommunicationDirection::FromModule,
        OUTPUTMODULE6CHANNELMODULEID,
        ModuleCommunicationType::Feedback,
        1,
    ) {
        Ok(
            OutputModule6ChannelValues {
                temperature: le_i16(rx, 6),
                ground_shift: le_u16(rx, 8),
                channel1_cur: le_i16(rx, 10),
                channel2_cur: le_i16(rx, 12),
                channel3_cur: le_i16(rx, 14),
                channel4_cur: le_i16(rx, 16),
                channel5_cur: le_i16(rx, 18),
                channel6_cur: le_i16(rx, 20),
                error_code: le_u32(rx, 22),
                channel1_duty: le_u16(rx, 26),
                channel2_duty: le_u16(rx, 28),
                channel3_duty: le_u16(rx, 30),
                channel4_duty: le_u16(rx, 32),
                channel5_duty: le_u16(rx, 34),
                channel6_duty: le_u16(rx, 36),
                supply_volt: le_u16(rx, 41),
            },
        )
    } else {
        Err(CommunicationError::UnableToSerDe)
    }
}

impl OutputModule6ChannelValues {
    /// Decodes the response to a data request. A response whose direction,
    /// module id, message type or message index is not that of the feedback
    /// to the request is rejected with `UnableToSerDe` and never decoded.
    pub fn deserialize(rx: &[u8]) -> (r: Result<OutputModule6ChannelValues, CommunicationError>)
        requires
            OUTPUTMODULE6CHANNELMESSAGELENGTH <= rx@.len(),
        ensures
            r == output_values_of(rx@),
    {
        if !check_header(
            rx,
            ModuleCommunicationDirection::FromModule,
            OUTPUTMODULE6CHANNELMODULEID,
            ModuleCommunicationType::Feedback,
            1,
        ) {
            return Err(CommunicationError::UnableToSerDe);
        }
        Ok(
            OutputModule6ChannelValues {
                temperature: read_le_i16(rx, 6),
                ground_shift: read_le_u16(rx, 8),
                channel1_cur: read_le_i16(rx, 10),
                channel2_cur: read_le_i16(rx, 12),
                channel3_cur: read_le_i16(rx, 14),
                channel4_cur: read_le_i16(rx, 16),
                channel5_cur: read_le_i16(rx, 18),
                channel6_cur: read_le_i16(rx, 20),
                error_code: read_le_u32(rx, 22),
                channel1_duty: read_le_u16(rx, 26),
                channel2_duty: read_le_u16(rx, 28),
                channel3_duty: read_le_u16(rx, 30),
                channel4_duty: read_le_u16(rx, 32),
                channel5_duty: read_le_u16(rx, 34),
                channel6_duty: read_le_u16(rx, 36),
                supply_volt: read_le_u16(rx, 41),
            },
        )
    }
}

/// Configuration of the module: the settings of each channel and the three
/// PWM frequencies, each shared by a pair of adjacent channels.
#[derive(Clone, Copy, Debug)]
pub struct OutputModule6ChannelConfiguration {
    channels: [OutputModule6ChannelChannel; 6],
    frequencies: [OutputModule6ChannelFrequency; 3],
}

/// `base` carrying the payload of the first configuration frame: the
/// function of channel `i`, packed with the frequency of its pair, at
/// `6 + i`; its maximum current, low byte first, at `12 + 2 * i`.
pub open spec fn output_configuration_payload(
    base: Seq<u8>,
    channels: Seq<OutputModule6ChannelChannel>,
    frequencies: Seq<OutputModule6ChannelFrequency>,
) -> Seq<u8> {
    Seq::new(
        base.len(),
        |k: int|
            if 6 <= k < 12 {
                channels[k - 6].wire_function(frequencies[(k - 6) / 2])
            } else if 12 <= k < 24 {
                u16_le_byte(channels[(k - 12) / 2].max_current, (k - 12) % 2)
            } else {
                base[k]
            },
    )
}

/// `base` carrying the payload of the second configuration frame: for every
/// peak-and-hold channel `i` its peak current, low byte first, at
/// `6 + 2 * i`, and its peak time at `18 + 2 * i`. The bytes of every other
/// channel are those of `base`.
pub open spec fn peak_and_hold_payload(
    base: Seq<u8>,
    channels: Seq<OutputModule6ChannelChannel>,
) -> Seq<u8> {
    Seq::new(
        base.len(),
        |k: int|
            if 6 <= k < 18 {
                match channels[(k - 6) / 2].func {
                    OutputModule6ChannelFunc::PeakAndHold(settings) => u16_le_byte(
                        settings.peak_current,
                        (k - 6) % 2,
                    ),
                    _ => base[k],
                }
            } else if 18 <= k < 30 {
                match channels[(k - 18) / 2].func {
                    OutputModule6ChannelFunc::PeakAndHold(settings) => u16_le_byte(
                        settings.peak_time,
                        (k - 18) % 2,
                    ),
                    _ => base[k],
                }
            } else {
                base[k]
            },
    )
}

impl OutputModule6ChannelConfiguration {
    /// The settings of the six channels, channel one first.
    pub closed spec fn channels(&self) -> Seq<OutputModule6ChannelChannel> {
        self.channels@
    }

    /// The three shared frequencies, the one of channels one and two first.
    pub closed spec fn frequencies(&self) -> Seq<OutputModule6ChannelFrequency> {
        self.frequencies@
    }

    /// Every configuration holds six channels and three frequencies.
    pub broadcast proof fn lemma_shape(&self)
        ensures
            #[trigger] self.channels().len() == 6,
            #[trigger] self.frequencies().len() == 3,
    {
    }

    /// The settings of `channel`.
    pub fn channel(&self, channel: OutputModule6ChannelNum) -> (settings:
        OutputModule6ChannelChannel)
        ensures
            settings == self.channels()[channel.number() - 1],
    {
        self.channels[channel.index()]
    }

    /// The frequency shared by the channels of `pair`.
    pub fn frequency(&self, pair: OutputModule6ChannelFrequencyNum) -> (frequency:
        OutputModule6ChannelFrequency)
        ensures
            frequency == self.frequencies()[pair.pair()],
    {
        self.frequencies[pair.index()]
    }

    /// Writes the payload of the first configuration frame into `tx`. The
    /// header and every byte from 24 on are left as they are.
    pub fn serialize1(&self, tx: &mut [u8])
        requires
            old(tx)@.len() >= 24,
        ensures
            final(tx)@ == output_configuration_payload(
                old(tx)@,
                self.channels(),
                self.frequencies(),
            ),
    {
        let mut i: usize = 0;
        while i < 6
            invariant
                i <= 6,
                tx@.len() == old(tx)@.len(),
                tx@.len() >= 24,
                forall|k: int|
                    6 <= k < 6 + i ==> tx@[k] == self.channels@[k - 6].wire_function(
                        self.frequencies@[(k - 6) / 2],
                    ),
                forall|k: int|
                    12 <= k < 12 + 2 * i ==> tx@[k] == u16_le_byte(
                        self.channels@[(k - 12) / 2].max_current,
                        (k - 12) % 2,
                    ),
                forall|k: int|
                    0 <= k < tx@.len() && !(6 <= k < 6 + i) && !(12 <= k < 12 + 2 * i) ==> tx@[k]
                        == old(tx)@[k],
            decreases 6 - i,
        {
            let channel = self.channels[i];
            tx[6 + i] = channel.function_byte(self.frequencies[i / 2]);
            write_le_u16(tx, 12 + i * 2, channel.max_current);
            i += 1;
        }
        assert(tx@ =~= output_configuration_payload(
            old(tx)@,
            self.channels(),
            self.frequencies(),
        ));
    }

    /// Writes the payload of the second configuration frame into `tx`: the
    /// peak current and peak time of every peak-and-hold channel. Every
    /// other byte is left as it is.
    pub fn serialize2(&self, tx: &mut [u8])
        requires
            old(tx)@.len() >= 30,
        ensures
            final(tx)@ == peak_and_hold_payload(old(tx)@, self.channels()),
    {
        let mut i: usize = 0;
        while i < 6
            invariant
                i <= 6,
                tx@.len() == old(tx)@.len(),
                tx@.len() >= 30,
                forall|k: int|
                    0 <= k < tx@.len() ==> tx@[k] == if 6 <= k < 6 + 2 * i || 18 <= k < 18 + 2 * i {
                        peak_and_hold_payload(old(tx)@, self.channels@)[k]
                    } else {
                        old(tx)@[k]
                    },
            decreases 6 - i,
        {
            match self.channels[i].func {
                OutputModule6ChannelFunc::PeakAndHold(settings) => {
                    write_le_u16(tx, 6 + i * 2, settings.peak_current);
                    write_le_u16(tx, 18 + i * 2, settings.peak_time);
                },
                _ => {},
            }
            i += 1;
        }
        assert(tx@ =~= peak_and_hold_payload(old(tx)@, self.channels()));
    }
}

impl Default for OutputModule6ChannelConfiguration {
    /// Every channel disabled, every pair at 1 kHz.
    fn default() -> (configuration: Self)
        ensures
            configuration.channels() == Seq::new(
                6,
                |i: int| OutputModule6ChannelChannel::initial(),
            ),
            configuration.frequencies() == Seq::new(
                3,
                |i: int| OutputModule6ChannelFrequency::Hz1_000,
            ),
    {
        let channel = OutputModule6ChannelChannel::default();
        let configuration = OutputModule6ChannelConfiguration {
            channels: [channel; 6],
            frequencies: [OutputModule6ChannelFrequency::Hz1_000; 3],
        };
        assert(configuration.channels() =~= Seq::new(
            6,
            |i: int| OutputModule6ChannelChannel::initial(),
        ));
        assert(configuration.frequencies() =~= Seq::new(
            3,
            |i: int| OutputModule6ChannelFrequency::Hz1_000,
        ));
        configuration
    }
}

/// The frame that sends `setpoint` to the module in slot `slot` and asks for
/// its feedback.
pub open spec fn output_data_request(slot: u8, setpoint: OutputModule6ChannelSetpoint) -> Seq<u8> {
    framed(
        setpoint_payload(blank(OUTPUTMODULE6CHANNELBUFFERLENGTH as nat), setpoint),
        slot,
        OUTPUTMODULE6CHANNELMESSAGELENGTH as int,
        ModuleCommunicationDirection::ToModule,
        OUTPUTMODULE6CHANNELMODULEID,
        ModuleCommunicationType::Data,
        1,
    )
}

/// The first frame that configures the module in slot `slot`: functions,
/// frequencies and maximum currents.
pub open spec fn output_first_configuration_frame(
    slot: u8,
    configuration: OutputModule6ChannelConfiguration,
) -> Seq<u8> {
    framed(
        output_configuration_payload(
            blank(OUTPUTMODULE6CHANNELBUFFERLENGTH as nat),
            configuration.channels(),
            configuration.frequencies(),
        ),
        slot,
        OUTPUTMODULE6CHANNELMESSAGELENGTH as int,
        ModuleCommunicationDirection::ToModule,
        OUTPUTMODULE6CHANNELMODULEID,
        ModuleCommunicationType::Configuration,
        1,
    )
}

/// The second frame that configures the module in slot `slot`: the peak
/// and hold settings, written over the first frame.
pub open spec fn output_second_configuration_frame(
    slot: u8,
    configuration: OutputModule6ChannelConfiguration,
) -> Seq<u8> {
    framed(
        peak_and_hold_payload(
            output_first_configuration_frame(slot, configuration),
            configuration.channels(),
        ),
        slot,
        OUTPUTMODULE6CHANNELMESSAGELENGTH as int,
        ModuleCommunicationDirection::ToModule,
        OUTPUTMODULE6CHANNELMODULEID,
        ModuleCommunicationType::Configuration,
        2,
    )
}

/// What a successful write of the first configuration frame adds.
pub open spec fn first_configuration_sent(
    state: DriverState<OutputModule6ChannelConfiguration>,
) -> Seq<LinkEvent> {
    send_events(
        state.transport.policy,
        FIRST_CONFIGURATION_DELAY_US,
        output_first_configuration_frame(state.transport.slot, state.configuration),
        Some(true),
        true,
    )
}

/// `added` is what sending the configuration adds to the trace of a
/// transport, and `bound` tells whether the module is bound by it. Either
/// the first frame is not written, nothing follows and the module is not
/// bound; or it is written, the second frame is sent after it, and the
/// module is bound if and only if that one is written too.
pub open spec fn is_output_bind_run(
    added: Seq<LinkEvent>,
    state: DriverState<OutputModule6ChannelConfiguration>,
    bound: bool,
) -> bool {
    ||| {
        &&& is_send_run(
            added,
            state.transport.policy,
            FIRST_CONFIGURATION_DELAY_US,
            output_first_configuration_frame(state.transport.slot, state.configuration),
        )
        &&& !write_done(added)
        &&& !bound
    }
    ||| {
        &&& continues(first_configuration_sent(state), added)
        &&& is_send_run(
            added_events(first_configuration_sent(state), added),
            state.transport.policy,
            SECOND_CONFIGURATION_DELAY_US,
            output_second_configuration_frame(state.transport.slot, state.configuration),
        )
        &&& bound == write_done(added_events(first_configuration_sent(state), added))
    }
}

/// `added` is what building adds to the trace of a transport, and `bound`
/// tells whether the module is bound by it. The bootloader escape comes
/// first. Unless it is answered with the identity of an output module
/// nothing else is done and the module is not bound; otherwise the
/// configuration is sent.
pub open spec fn is_output_build_run(
    added: Seq<LinkEvent>,
    state: DriverState<OutputModule6ChannelConfiguration>,
    bound: bool,
) -> bool {
    &&& added.len() >= 1
    &&& added[0] matches LinkEvent::Transfer { sent, received, .. } && {
        &&& sent == escape_frame_bytes()
        &&& received.len() == BOOTMESSAGELENGTH
    }
    &&& if escape_identified(added, output_identity()) {
        is_output_bind_run(added.skip(1), state, bound)
    } else {
        added.len() == 1 && !bound
    }
}

/// A bound output module: the only value through which setpoints can be
/// sent. It exists only after the module in the slot has identified itself
/// as an output module and has been sent both configuration frames.
pub struct OutputModule6Channel<SPI, ResetPin, InterruptPin, Delay> {
    module: GoModule<SPI, ResetPin, InterruptPin, Delay>,
    configuration: OutputModule6ChannelConfiguration,
}

/// Collects the configuration of an output module before it is bound.
pub struct OutputModule6ChannelBuilder<SPI, ResetPin, InterruptPin, Delay> {
    module: GoModule<SPI, ResetPin, InterruptPin, Delay>,
    configuration: OutputModule6ChannelConfiguration,
}

impl<SPI, ResetPin, InterruptPin, Delay> View for OutputModule6Channel<
    SPI,
    ResetPin,
    InterruptPin,
    Delay,
> {
    type V = DriverState<OutputModule6ChannelConfiguration>;

    closed spec fn view(&self) -> DriverState<OutputModule6ChannelConfiguration> {
        DriverState { transport: self.module@, configuration: self.configuration }
    }
}

impl<SPI, ResetPin, InterruptPin, Delay> View for OutputModule6ChannelBuilder<
    SPI,
    ResetPin,
    InterruptPin,
    Delay,
> {
    type V = DriverState<OutputModule6ChannelConfiguration>;

    closed spec fn view(&self) -> DriverState<OutputModule6ChannelConfiguration> {
        DriverState { transport: self.module@, configuration: self.configuration }
    }
}

impl<SPI, ResetPin, InterruptPin, Delay> OutputModule6Channel<
    SPI,
    ResetPin,
    InterruptPin,
    Delay,
> where SPI: DuplexLink, ResetPin: ResetLine, InterruptPin: ReadyLine, Delay: DelaySource {
    /// The transport this driver holds.
    pub closed spec fn transport(&self) -> GoModule<SPI, ResetPin, InterruptPin, Delay> {
        self.module
    }

    /// The configuration the module was bound with.
    pub fn configuration(&self) -> (configuration: &OutputModule6ChannelConfiguration)
        ensures
            *configuration == self@.configuration,
    {
        &self.configuration
    }

    /// Gives the module up: hands back the unidentified transport, with
    /// every resource, and the configuration the module was bound with.
    pub fn reconfigure(self) -> (released: (
        GoModuleUnknown<SPI, ResetPin, InterruptPin, Delay>,
        OutputModule6ChannelConfiguration,
    ))
        ensures
            (released.0@, released.1) == released_state(self@),
            released.0.trace() == self.transport().trace(),
            released.0.link() == self.transport().link(),
            released.0.reset_line() == self.transport().reset_line(),
            released.0.ready_line() == self.transport().ready_line(),
            released.0.delay_source() == self.transport().delay_source(),
    {
        (self.module.degrade(), self.configuration)
    }

    /// Gives the module up, resets it and builds it again with the
    /// configuration it was bound with. A module bound again is in the state
    /// it was in before: the same slot, the same policy, the same
    /// configuration, as after a build from that configuration on a fresh
    /// transport of the slot. On any failure the unidentified transport and
    /// the configuration come back.
    pub fn rebuild(self) -> (r: Result<
        OutputModule6Channel<SPI, ResetPin, InterruptPin, Delay>,
        (GoModuleUnknown<SPI, ResetPin, InterruptPin, Delay>, OutputModule6ChannelConfiguration),
    >)
        ensures
            match r {
                Ok(bound) => bound@ == self@,
                Err((unknown, configuration)) => (unknown@, configuration) == released_state(
                    self@,
                ),
            },
            continues(
                self.transport().trace(),
                OutputModule6ChannelBuilder::<SPI, ResetPin, InterruptPin, Delay>::trace_after(r),
            ),
            ({
                let before = self.transport().trace();
                let after = OutputModule6ChannelBuilder::<
                    SPI,
                    ResetPin,
                    InterruptPin,
                    Delay,
                >::trace_after(r);
                let reset = before + reset_events(true, true);
                ||| r is Err && after == before + reset_events(false, false)
                ||| r is Err && after == before + reset_events(true, false)
                ||| continues(reset, after) && is_output_build_run(
                    added_events(reset, after),
                    self@,
                    r is Ok,
                )
            }),
    {
        let (unknown, configuration) = self.reconfigure();
        let module = match unknown.module_reset() {
            Ok(module) => module,
            Err(unknown) => {
                proof {
                    lemma_appended(self.transport().trace(), reset_events(false, false));
                    lemma_appended(self.transport().trace(), reset_events(true, false));
                }
                return Err((unknown, configuration));
            },
        };
        let r = OutputModule6ChannelBuilder::from_configuration(module, configuration).build();
        proof {
            let before = self.transport().trace();
            lemma_appended(before, reset_events(true, true));
            lemma_continues_on(
                before,
                before + reset_events(true, true),
                OutputModule6ChannelBuilder::<SPI, ResetPin, InterruptPin, Delay>::trace_after(r),
            );
        }
        r
    }

    /// Sends the setpoints and reads the feedback with one exchange. The
    /// feedback is that of the answer, which must be intact and be the
    /// feedback to the request; an answer that is intact but answers
    /// something else is `UnableToSerDe`.
    pub fn set_and_read_channels(&mut self, setpoint: &OutputModule6ChannelSetpoint) -> (r: Result<
        OutputModule6ChannelValues,
        GoModuleError<SPI::Error, ResetPin::Error, InterruptPin::Error>,
    >)
        ensures
            final(self)@ == old(self)@,
            final(self).transport().trace() == old(self).transport().trace() + exchange_events(
                old(self)@.transport.policy,
                0,
                output_data_request(old(self)@.transport.slot, *setpoint),
                last_received(final(self).transport().trace()),
                observed_level(r),
                channel_done(r),
            ),
            match r {
                Ok(values) => {
                    &&& frame_intact(
                        last_received(final(self).transport().trace()),
                        OUTPUTMODULE6CHANNELMESSAGELENGTH as int,
                    )
                    &&& output_values_of(last_received(final(self).transport().trace())) == Ok::<
                        OutputModule6ChannelValues,
                        CommunicationError,
                    >(values)
                },
                Err(GoModuleError::CommunicationError(CommunicationError::UnableToSerDe)) => {
                    &&& frame_intact(
                        last_received(final(self).transport().trace()),
                        OUTPUTMODULE6CHANNELMESSAGELENGTH as int,
                    )
                    &&& output_values_of(last_received(final(self).transport().trace())) is Err
                },
                Err(GoModuleError::CommunicationError(CommunicationError::ChecksumIncorrect)) => {
                    !frame_intact(
                        last_received(final(self).transport().trace()),
                        OUTPUTMODULE6CHANNELMESSAGELENGTH as int,
                    )
                },
                Err(GoModuleError::CommunicationError(CommunicationError::ModuleUnavailable)) => old(
                    self,
                )@.transport.policy != ReadyPolicy::Unchecked,
                Err(GoModuleError::InterruptPin(_)) => old(self)@.transport.policy
                    != ReadyPolicy::Unchecked,
                Err(GoModuleError::SPI(_)) => true,
                Err(_) => false,
            },
    {
        let mut tx = [0u8; 49];
        let mut rx = [0u8; 49];
        assert(tx@ =~= blank(OUTPUTMODULE6CHANNELBUFFERLENGTH as nat));
        setpoint.serialize(&mut tx);
        match self.module.send_receive_spi(
            ModuleCommunicationDirection::ToModule,
            OUTPUTMODULE6CHANNELMODULEID,
            ModuleCommunicationType::Data,
            1,
            &mut tx,
            &mut rx,
            OUTPUTMODULE6CHANNELMESSAGELENGTH,
            0,
        ) {
            Ok(()) => {},
            Err(e) => {
                return Err(e);
            },
        }
        match OutputModule6ChannelValues::deserialize(&rx) {
            Ok(values) => Ok(values),
            Err(e) => Err(GoModuleError::CommunicationError(e)),
        }
    }
}

impl<SPI, ResetPin, InterruptPin, Delay> OutputModule6ChannelBuilder<
    SPI,
    ResetPin,
    InterruptPin,
    Delay,
> where SPI: DuplexLink, ResetPin: ResetLine, InterruptPin: ReadyLine, Delay: DelaySource {
    /// The transport this builder holds.
    pub closed spec fn transport(&self) -> GoModule<SPI, ResetPin, InterruptPin, Delay> {
        self.module
    }

    /// The trace of the transport that building hands out, bound or not.
    pub open spec fn trace_after(
        r: Result<
            OutputModule6Channel<SPI, ResetPin, InterruptPin, Delay>,
            (
                GoModuleUnknown<SPI, ResetPin, InterruptPin, Delay>,
                OutputModule6ChannelConfiguration,
            ),
        >,
    ) -> Seq<LinkEvent> {
        match r {
            Ok(bound) => bound.transport().trace(),
            Err((unknown, _)) => unknown.trace(),
        }
    }

    /// Starts from the initial configuration.
    pub fn new(module: GoModule<SPI, ResetPin, InterruptPin, Delay>) -> (builder: Self)
        ensures
            builder.transport() == module,
            builder@.transport == module@,
            builder@.configuration.channels() == Seq::new(
                6,
                |i: int| OutputModule6ChannelChannel::initial(),
            ),
            builder@.configuration.frequencies() == Seq::new(
                3,
                |i: int| OutputModule6ChannelFrequency::Hz1_000,
            ),
    {
        OutputModule6ChannelBuilder {
            module,
            configuration: OutputModule6ChannelConfiguration::default(),
        }
    }

    /// Starts from a configuration that was handed back earlier.
    pub fn from_configuration(
        module: GoModule<SPI, ResetPin, InterruptPin, Delay>,
        configuration: OutputModule6ChannelConfiguration,
    ) -> (builder: Self)
        ensures
            builder.transport() == module,
            builder@ == bound_state(module@, configuration),
    {
        OutputModule6ChannelBuilder { module, configuration }
    }

    /// Replaces the settings of `channel`; every other channel and the
    /// frequencies stay as they are.
    pub fn configure_channel(
        self,
        channel: OutputModule6ChannelNum,
        func: OutputModule6ChannelFunc,
        max_current: u16,
    ) -> (builder: Self)
        ensures
            builder.transport() == self.transport(),
            builder@.transport == self@.transport,
            builder@.configuration.channels() == self@.configuration.channels().update(
                channel.number() - 1,
                OutputModule6ChannelChannel { func, max_current },
            ),
            builder@.configuration.frequencies() == self@.configuration.frequencies(),
    {
        let mut configuration = self.configuration;
        configuration.channels[channel.index()] = OutputModule6ChannelChannel { func, max_current };
        OutputModule6ChannelBuilder { module: self.module, configuration }
    }

    /// Sets the frequency shared by the channels of pair `channel`. The
    /// value replaces whatever was set for the pair before; the other pairs
    /// and the channels stay as they are.
    pub fn configure_frequency(
        self,
        channel: OutputModule6ChannelFrequencyNum,
        freq: OutputModule6ChannelFrequency,
    ) -> (builder: Self)
        ensures
            builder.transport() == self.transport(),
            builder@.transport == self@.transport,
            builder@.configuration.channels() == self@.configuration.channels(),
            builder@.configuration.frequencies() == self@.configuration.frequencies().update(
                channel.pair(),
                freq,
            ),
    {
        let mut configuration = self.configuration;
        configuration.frequencies[channel.index()] = freq;
        OutputModule6ChannelBuilder { module: self.module, configuration }
    }

    /// Binds the module, given what the bootloader escape returned. Unless
    /// the escape was answered with the identity of an output module no
    /// resource is used: the transport comes back unidentified and
    /// untouched, beside the configuration. Otherwise the two configuration
    /// frames are sent, the second written over the first, and the module is
    /// bound if and only if both writes succeed.
    pub fn bind<E>(self, bootmessage: &Result<[u8; 46], E>) -> (r: Result<
        OutputModule6Channel<SPI, ResetPin, InterruptPin, Delay>,
        (GoModuleUnknown<SPI, ResetPin, InterruptPin, Delay>, OutputModule6ChannelConfiguration),
    >)
        ensures
            match r {
                Ok(bound) => bound@ == self@,
                Err((unknown, configuration)) => (unknown@, configuration) == released_state(
                    self@,
                ),
            },
            if bootmessage matches Ok(answer) && identity_of(answer@) == output_identity() {
                &&& continues(self.transport().trace(), Self::trace_after(r))
                &&& is_output_bind_run(
                    added_events(self.transport().trace(), Self::trace_after(r)),
                    self@,
                    r is Ok,
                )
            } else {
                r matches Err((unknown, _)) && {
                    &&& unknown.trace() == self.transport().trace()
                    &&& unknown.link() == self.transport().link()
                    &&& unknown.reset_line() == self.transport().reset_line()
                    &&& unknown.ready_line() == self.transport().ready_line()
                    &&& unknown.delay_source() == self.transport().delay_source()
                }
            },
    {
        let mut module = self.module;
        let configuration = self.configuration;
        let expected = output_module_identity();
        if !identified(bootmessage, &expected) {
            return Err((module.degrade(), configuration));
        }
        let ghost before = self.transport().trace();
        let mut tx = [0u8; 49];
        assert(tx@ =~= blank(OUTPUTMODULE6CHANNELBUFFERLENGTH as nat));
        configuration.serialize1(&mut tx);
        let first = module.send_spi(
            ModuleCommunicationDirection::ToModule,
            OUTPUTMODULE6CHANNELMODULEID,
            ModuleCommunicationType::Configuration,
            1,
            &mut tx,
            OUTPUTMODULE6CHANNELMESSAGELENGTH,
            FIRST_CONFIGURATION_DELAY_US,
        );
        let ghost first_run = send_events(
            self@.transport.policy,
            FIRST_CONFIGURATION_DELAY_US,
            tx@,
            observed_level(first),
            first is Ok,
        );
        proof {
            lemma_appended(before, first_run);
        }
        if first.is_err() {
            return Err((module.degrade(), configuration));
        }
        assert(first_run == first_configuration_sent(self@));
        configuration.serialize2(&mut tx);
        let second = module.send_spi(
            ModuleCommunicationDirection::ToModule,
            OUTPUTMODULE6CHANNELMODULEID,
            ModuleCommunicationType::Configuration,
            2,
            &mut tx,
            OUTPUTMODULE6CHANNELMESSAGELENGTH,
            SECOND_CONFIGURATION_DELAY_US,
        );
        proof {
            let second_run = send_events(
                self@.transport.policy,
                SECOND_CONFIGURATION_DELAY_US,
                tx@,
                observed_level(second),
                second is Ok,
            );
            lemma_appended(first_run, second_run);
            lemma_appended(before, first_run + second_run);
            assert(before + first_run + second_run =~= before + (first_run + second_run));
        }
        if second.is_err() {
            return Err((module.degrade(), configuration));
        }
        Ok(OutputModule6Channel { module, configuration })
    }

    /// Makes the module leave its bootloader, checks that it identifies
    /// itself as an output module and sends it both configuration frames.
    /// The module is bound if and only if the escape is answered with the
    /// identity of an output module and both frames are written; otherwise
    /// the unidentified transport and the configuration come back, and after
    /// a wrong identity nothing more has been sent.
    pub fn build(self) -> (r: Result<
        OutputModule6Channel<SPI, ResetPin, InterruptPin, Delay>,
        (GoModuleUnknown<SPI, ResetPin, InterruptPin, Delay>, OutputModule6ChannelConfiguration),
    >)
        ensures
            match r {
                Ok(bound) => bound@ == self@,
                Err((unknown, configuration)) => (unknown@, configuration) == released_state(
                    self@,
                ),
            },
            continues(self.transport().trace(), Self::trace_after(r)),
            is_output_build_run(
                added_events(self.transport().trace(), Self::trace_after(r)),
                self@,
                r is Ok,
            ),
            !escape_identified(
                added_events(self.transport().trace(), Self::trace_after(r)),
                output_identity(),
            ) ==> (r matches Err((unknown, _)) && {
                &&& unknown.reset_line() == self.transport().reset_line()
                &&& unknown.ready_line() == self.transport().ready_line()
                &&& unknown.delay_source() == self.transport().delay_source()
            }),
    {
        let mut builder = self;
        let bootmessage = builder.module.escape_module_bootloader();
        let ghost escaped = builder.module.trace();
        let r = builder.bind(&bootmessage);
        proof {
            let before = self.transport().trace();
            let after = Self::trace_after(r);
            assert(escaped =~= before.push(escaped.last()));
            assert(continues(escaped, after));
            assert(continues(before, after));
            let added = added_events(before, after);
            assert(added[0] == escaped.last());
            assert(added.skip(1) =~= added_events(escaped, after));
        }
        r
    }
}

/// The frequency of a pair is written once for the pair: in the first
/// configuration frame the function bytes of both channels of pair `pair`
/// carry, in their low four bits, the one frequency held for the pair.
pub proof fn lemma_pair_shares_frequency(
    base: Seq<u8>,
    channels: Seq<OutputModule6ChannelChannel>,
    frequencies: Seq<OutputModule6ChannelFrequency>,
    pair: int,
)
    requires
        base.len() >= 24,
        channels.len() == 6,
        frequencies.len() == 3,
        0 <= pair < 3,
    ensures
        output_configuration_payload(base, channels, frequencies)[6 + 2 * pair] % 16
            == frequencies[pair].wire(),
        output_configuration_payload(base, channels, frequencies)[7 + 2 * pair] % 16
            == frequencies[pair].wire(),
        output_configuration_payload(base, channels, frequencies)[6 + 2 * pair] / 16 == channels[2
            * pair].func.wire(),
        output_configuration_payload(base, channels, frequencies)[7 + 2 * pair] / 16 == channels[2
            * pair + 1].func.wire(),
{
}

/// Last write wins: setting the frequency of a pair twice leaves the frame
/// that setting it to the second value alone leaves, for every pair and
/// whatever the two values are.
pub proof fn lemma_last_frequency_wins(
    base: Seq<u8>,
    channels: Seq<OutputModule6ChannelChannel>,
    frequencies: Seq<OutputModule6ChannelFrequency>,
    pair: OutputModule6ChannelFrequencyNum,
    first: OutputModule6ChannelFrequency,
    second: OutputModule6ChannelFrequency,
)
    requires
        base.len() >= 24,
        channels.len() == 6,
        frequencies.len() == 3,
    ensures
        frequencies.update(pair.pair(), first).update(pair.pair(), second) == frequencies.update(
            pair.pair(),
            second,
        ),
        output_configuration_payload(
            base,
            channels,
            frequencies.update(pair.pair(), first).update(pair.pair(), second),
        ) == output_configuration_payload(base, channels, frequencies.update(pair.pair(), second)),
        output_configuration_payload(
            base,
            channels,
            frequencies.update(pair.pair(), first).update(pair.pair(), second),
        )[6 + 2 * pair.pair()] % 16 == second.wire(),
        output_configuration_payload(
            base,
            channels,
            frequencies.update(pair.pair(), first).update(pair.pair(), second),
        )[7 + 2 * pair.pair()] % 16 == second.wire(),
{
    assert(frequencies.update(pair.pair(), first).update(pair.pair(), second) =~= frequencies.update(
        pair.pair(),
        second,
    ));
    lemma_pair_shares_frequency(
        base,
        channels,
        frequencies.update(pair.pair(), second),
        pair.pair(),
    );
}

/// An intact response that is not the feedback to the data request, be it
/// by its message index, direction, module id or message type, is never
/// decoded: it is `UnableToSerDe`.
pub proof fn lemma_unrequested_response_rejected(rx: Seq<u8>)
    requires
        rx.len() >= OUTPUTMODULE6CHANNELMESSAGELENGTH,
        rx[5] != 1 || rx[2] != ModuleCommunicationDirection::FromModule.wire() || rx[3]
            != OUTPUTMODULE6CHANNELMODULEID || rx[4] != ModuleCommunicationType::Feedback.wire(),
    ensures
        output_values_of(rx) == Err::<OutputModule6ChannelValues, CommunicationError>(
            CommunicationError::UnableToSerDe,
        ),
{
}

} // verus!
