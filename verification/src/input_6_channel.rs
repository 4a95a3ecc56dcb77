//! Driver of the six channel input module: configuration builder, frame
//! layouts and telemetry reader.

use vstd::prelude::*;
use crate::error::{CommunicationError, GoModuleError};
use crate::frame::{
    blank, check_header, frame_intact, framed, header_matches, ModuleCommunicationDirection,
    ModuleCommunicationType,
};
use crate::link::{DelaySource, DuplexLink, ReadyLine, ResetLine};
use crate::trace::{
    added_events, channel_done, continues, escape_identified, exchange_events, is_send_run,
    last_received, lemma_appended, lemma_continues_on, observed_level, reset_events, send_events,
    write_done, LinkEvent,
};
use crate::transport::{
    bound_state, escape_frame_bytes, identified, identity_of, released_state, DriverState,
    GoModule, GoModuleUnknown, ReadyPolicy, BOOTMESSAGELENGTH,
};
use crate::wire::{le_u32, read_le_u32, u16_le_byte, with_le_i32, write_le_i32};

verus! {

/// Length of every frame exchanged with the input module.
pub const INPUTMODULE6CHANNELMESSAGELENGTH: usize = 55;

/// Size of the buffers handed to the channel for the input module.
pub const INPUTMODULE6CHANNELBUFFERLENGTH: usize = 60;

/// Sub-device selector of the input module.
pub const INPUTMODULE6CHANNELMODULEID: u8 = 11;

/// Largest number of samples an analog channel averages over.
pub const MAX_SAMPLES: u16 = 1000;

/// Largest number of pulses per rotation of an RPM channel.
pub const MAX_PULSES_PER_ROTATION: u8 = 200;

/// Turnaround delay of the configuration frame, in microseconds: a module
/// that just left its bootloader takes long to answer.
pub const CONFIGURATION_DELAY_US: u32 = 500_000;

/// The identity an input module reports when it leaves its bootloader.
pub open spec fn input_identity() -> Seq<u8> {
    seq![20u8, 10u8, 1u8]
}

/// The identity an input module reports when it leaves its bootloader.
pub fn input_module_identity() -> (id: [u8; 3])
    ensures
        id@ == input_identity(),
{
    let id: [u8; 3] = [20, 10, 1];
    assert(id@ =~= input_identity());
    id
}

/// Selects the function of an input channel.
#[derive(Clone, Copy, PartialEq, Eq, Structural, Debug)]
pub enum InputModule6ChannelFunc {
    /// Raw converter value, averaged over the given number of samples.
    AnalogRaw(u16),
    /// Voltage in millivolt, averaged over the given number of samples.
    AnalogmV(u16),
    /// Digital level.
    Digital,
    /// Frequency of the signal.
    Frequency,
    /// Low period of a duty cycle signal.
    DutyLow,
    /// High period of a duty cycle signal.
    DutyHigh,
    /// Rotational speed with the given number of pulses per rotation;
    /// combines the channel with its neighbour.
    RPM(u8),
    /// Pulse count; combines the channel with its neighbour.
    PulseCounter,
}

impl InputModule6ChannelFunc {
    /// The byte that selects this function on the wire.
    pub open spec fn wire(self) -> u8 {
        match self {
            InputModule6ChannelFunc::AnalogRaw(_) => 1,
            InputModule6ChannelFunc::AnalogmV(_) => 2,
            InputModule6ChannelFunc::Digital => 3,
            InputModule6ChannelFunc::Frequency => 4,
            InputModule6ChannelFunc::DutyLow => 5,
            InputModule6ChannelFunc::DutyHigh => 6,
            InputModule6ChannelFunc::RPM(_) => 7,
            InputModule6ChannelFunc::PulseCounter => 8,
        }
    }

    /// The two parameter bytes of this function, first and second: the
    /// sample count of an analog function, capped, as a little-endian 16 bit
    /// integer; the pulses per rotation of an RPM function, capped, then
    /// zero; zeros for every other function.
    pub open spec fn wire_parameter(self) -> (u8, u8) {
        match self {
            InputModule6ChannelFunc::AnalogRaw(samples) | InputModule6ChannelFunc::AnalogmV(
                samples,
            ) => {
                let capped: u16 = if samples > MAX_SAMPLES {
                    MAX_SAMPLES
                } else {
                    samples
                };
                (u16_le_byte(capped, 0), u16_le_byte(capped, 1))
            },
            InputModule6ChannelFunc::RPM(pulses) => {
                if pulses > MAX_PULSES_PER_ROTATION {
                    (MAX_PULSES_PER_ROTATION, 0u8)
                } else {
                    (pulses, 0u8)
                }
            },
            _ => (0u8, 0u8),
        }
    }

    /// The byte that selects this function on the wire.
    pub fn discriminant(&self) -> (tag: u8)
        ensures
            tag == self.wire(),
    {
        match self {
            InputModule6ChannelFunc::AnalogRaw(_) => 1,
            InputModule6ChannelFunc::AnalogmV(_) => 2,
            InputModule6ChannelFunc::Digital => 3,
            InputModule6ChannelFunc::Frequency => 4,
            InputModule6ChannelFunc::DutyLow => 5,
            InputModule6ChannelFunc::DutyHigh => 6,
            InputModule6ChannelFunc::RPM(_) => 7,
            InputModule6ChannelFunc::PulseCounter => 8,
        }
    }

    /// The two parameter bytes of this function.
    pub fn parameter(&self) -> (bytes: (u8, u8))
        ensures
            bytes == self.wire_parameter(),
    {
        match self {
            InputModule6ChannelFunc::AnalogRaw(samples) | InputModule6ChannelFunc::AnalogmV(
                samples,
            ) => {
                let capped: u16 = if *samples > MAX_SAMPLES {
                    MAX_SAMPLES
                } else {
                    *samples
                };
                ((capped % 256) as u8, (capped / 256) as u8)
            },
            InputModule6ChannelFunc::RPM(pulses) => {
                if *pulses > MAX_PULSES_PER_ROTATION {
                    (MAX_PULSES_PER_ROTATION, 0u8)
                } else {
                    (*pulses, 0u8)
                }
            },
            _ => (0u8, 0u8),
        }
    }
}

/// Pull-up resistor of an input channel.
#[derive(Clone, Copy, PartialEq, Eq, Structural, Debug)]
pub enum InputModule6ChannelPullUp {
    /// No pull-up resistor.
    PUNone,
    PU3_3k,
    PU4_7k,
    PU10k,
}

impl InputModule6ChannelPullUp {
    /// The two bits that select this resistor in the module's resistor bank,
    /// which is not addressed in the order of the resistances.
    pub open spec fn wire(self) -> u8 {
        match self {
            InputModule6ChannelPullUp::PUNone => 0,
            InputModule6ChannelPullUp::PU3_3k => 3,
            InputModule6ChannelPullUp::PU4_7k => 1,
            InputModule6ChannelPullUp::PU10k => 2,
        }
    }

    /// The two bits that select this resistor in the module's resistor bank.
    pub fn code(self) -> (code: u8)
        ensures
            code == self.wire(),
    {
        match self {
            InputModule6ChannelPullUp::PUNone => 0,
            InputModule6ChannelPullUp::PU3_3k => 3,
            InputModule6ChannelPullUp::PU4_7k => 1,
            InputModule6ChannelPullUp::PU10k => 2,
        }
    }
}

/// Pull-down resistor of an input channel.
#[derive(Clone, Copy, PartialEq, Eq, Structural, Debug)]
pub enum InputModule6ChannelPullDown {
    /// No pull-down resistor.
    PDNone,
    PD3_3k,
    PD4_7k,
    PD10k,
}

impl InputModule6ChannelPullDown {
    /// The two bits that select this resistor in the module's resistor bank,
    /// which is not addressed in the order of the resistances.
    pub open spec fn wire(self) -> u8 {
        match self {
            InputModule6ChannelPullDown::PDNone => 0,
            InputModule6ChannelPullDown::PD3_3k => 3,
            InputModule6ChannelPullDown::PD4_7k => 1,
            InputModule6ChannelPullDown::PD10k => 2,
        }
    }

    /// The two bits that select this resistor in the module's resistor bank.
    pub fn code(self) -> (code: u8)
        ensures
            code == self.wire(),
    {
        match self {
            InputModule6ChannelPullDown::PDNone => 0,
            InputModule6ChannelPullDown::PD3_3k => 3,
            InputModule6ChannelPullDown::PD4_7k => 1,
            InputModule6ChannelPullDown::PD10k => 2,
        }
    }
}

/// Voltage range of an input channel.
#[derive(Clone, Copy, PartialEq, Eq, Structural, Debug)]
pub enum InputModule6ChannelVoltage {
    Voltage5V,
    Voltage12V,
    Voltage24V,
}

impl InputModule6ChannelVoltage {
    /// The two bits that select this range on the wire.
    pub open spec fn wire(self) -> u8 {
        match self {
            InputModule6ChannelVoltage::Voltage5V => 0,
            InputModule6ChannelVoltage::Voltage12V => 1,
            InputModule6ChannelVoltage::Voltage24V => 2,
        }
    }

    /// The two bits that select this range on the wire.
    pub fn code(self) -> (code: u8)
        ensures
            code == self.wire(),
    {
        match self {
            InputModule6ChannelVoltage::Voltage5V => 0,
            InputModule6ChannelVoltage::Voltage12V => 1,
            InputModule6ChannelVoltage::Voltage24V => 2,
        }
    }
}

/// One of the six channels of the module.
#[derive(Clone, Copy, PartialEq, Eq, Structural, Debug)]
pub enum InputModule6ChannelNum {
    One,
    Two,
    Three,
    Four,
    Five,
    Six,
}

impl InputModule6ChannelNum {
    /// The number of this channel, counted from one.
    pub open spec fn number(self) -> u8 {
        match self {
            InputModule6ChannelNum::One => 1,
            InputModule6ChannelNum::Two => 2,
            InputModule6ChannelNum::Three => 3,
            InputModule6ChannelNum::Four => 4,
            InputModule6ChannelNum::Five => 5,
            InputModule6ChannelNum::Six => 6,
        }
    }

    /// The number of this channel, counted from one.
    pub fn code(self) -> (code: u8)
        ensures
            code == self.number(),
    {
        match self {
            InputModule6ChannelNum::One => 1,
            InputModule6ChannelNum::Two => 2,
            InputModule6ChannelNum::Three => 3,
            InputModule6ChannelNum::Four => 4,
            InputModule6ChannelNum::Five => 5,
            InputModule6ChannelNum::Six => 6,
        }
    }

    /// The place of this channel in the configuration, counted from zero.
    pub fn index(self) -> (index: usize)
        ensures
            index == self.number() - 1,
    {
        match self {
            InputModule6ChannelNum::One => 0,
            InputModule6ChannelNum::Two => 1,
            InputModule6ChannelNum::Three => 2,
            InputModule6ChannelNum::Four => 3,
            InputModule6ChannelNum::Five => 4,
            InputModule6ChannelNum::Six => 5,
        }
    }
}

/// State of the sensor supply shared by a pair of adjacent channels.
#[derive(Clone, Copy, PartialEq, Eq, Structural, Debug)]
pub enum InputModule6ChannelSupply {
    On,
    Off,
}

impl InputModule6ChannelSupply {
    /// The byte that stands for this state on the wire.
    pub open spec fn wire(self) -> u8 {
        match self {
            InputModule6ChannelSupply::On => 1,
            InputModule6ChannelSupply::Off => 2,
        }
    }

    /// The byte that stands for this state on the wire.
    pub fn code(self) -> (code: u8)
        ensures
            code == self.wire(),
    {
        match self {
            InputModule6ChannelSupply::On => 1,
            InputModule6ChannelSupply::Off => 2,
        }
    }
}

impl Default for InputModule6ChannelSupply {
    fn default() -> (supply: Self)
        ensures
            supply == InputModule6ChannelSupply::On,
    {
        InputModule6ChannelSupply::On
    }
}

/// Settings of one input channel.
#[derive(Clone, Copy, PartialEq, Eq, Structural, Debug)]
pub struct InputModule6ChannelChannel {
    pub func: InputModule6ChannelFunc,
    pub pu: InputModule6ChannelPullUp,
    pub pd: InputModule6ChannelPullDown,
    pub volt: InputModule6ChannelVoltage,
}

impl InputModule6ChannelChannel {
    /// The settings of a channel that was never configured: millivolt
    /// readings over 1000 samples, no resistors, 5 V range.
    pub open spec fn initial() -> InputModule6ChannelChannel {
        InputModule6ChannelChannel {
            func: InputModule6ChannelFunc::AnalogmV(1000),
            pu: InputModule6ChannelPullUp::PUNone,
            pd: InputModule6ChannelPullDown::PDNone,
            volt: InputModule6ChannelVoltage::Voltage5V,
        }
    }

    /// The byte that packs resistors and voltage range: pull-up in bits 0
    /// and 1, pull-down in bits 2 and 3, range in bits 6 and 7.
    pub open spec fn wire_flags(self) -> u8 {
        (self.pu.wire() + 4 * self.pd.wire() + 64 * self.volt.wire()) as u8
    }

    /// The byte of this channel's settings at offset `j` of its six byte
    /// record: function, flags, two parameter bytes, two reserved zeros.
    pub open spec fn wire_byte(self, j: int) -> u8 {
        if j == 0 {
            self.func.wire()
        } else if j == 1 {
            self.wire_flags()
        } else if j == 2 {
            self.func.wire_parameter().0
        } else if j == 3 {
            self.func.wire_parameter().1
        } else {
            0u8
        }
    }

    /// The byte that packs resistors and voltage range.
    pub fn flags(&self) -> (flags: u8)
        ensures
            flags == self.wire_flags(),
    {
        let pu = self.pu.code();
        let pd = self.pd.code();
        let volt = self.volt.code();
        assert(pu | pd << 2 | volt << 6 == pu + 4 * pd + 64 * volt) by (bit_vector)
            requires
                pu < 4,
                pd < 4,
                volt < 3,
        ;
        pu | pd << 2 | volt << 6
    }
}

impl Default for InputModule6ChannelChannel {
    fn default() -> (channel: Self)
        ensures
            channel == InputModule6ChannelChannel::initial(),
    {
        InputModule6ChannelChannel {
            func: InputModule6ChannelFunc::AnalogmV(1000),
            pu: InputModule6ChannelPullUp::PUNone,
            pd: InputModule6ChannelPullDown::PDNone,
            volt: InputModule6ChannelVoltage::Voltage5V,
        }
    }
}

/// Readings of the six channels, as the last exchange reported them.
#[derive(Clone, Copy, PartialEq, Eq, Structural, Debug)]
pub struct InputModule6ChannelValues {
    pub channel1: u32,
    pub channel2: u32,
    pub channel3: u32,
    pub channel4: u32,
    pub channel5: u32,
    pub channel6: u32,
}

/// Offset of the reading of channel `channel`, counted from zero, in a data
/// response.
pub open spec fn reading_offset(channel: int) -> int {
    6 + 8 * channel
}

/// What a data response decodes to: the six readings if its header answers
/// the data request, `UnableToSerDe` otherwise.
pub open spec fn input_values_of(rx: Seq<u8>) -> Result<
    InputModule6ChannelValues,
    CommunicationError,
> {
    if header_matches(
        rx,
        ModuleCommunicationDirection::FromModule,
        INPUTMODULE6CHANNELMODULEID,
        ModuleCommunicationType::Data,
        1,
    ) {
        Ok(
            InputModule6ChannelValues {
                channel1: le_u32(rx, reading_offset(0)),
                channel2: le_u32(rx, reading_offset(1)),
                channel3: le_u32(rx, reading_offset(2)),
                channel4: le_u32(rx, reading_offset(3)),
                channel5: le_u32(rx, reading_offset(4)),
                channel6: le_u32(rx, reading_offset(5)),
            },
        )
    } else {
        Err(CommunicationError::UnableToSerDe)
    }
}

impl InputModule6ChannelValues {
    /// Decodes a data response. A response whose direction, module id,
    /// message type or message index does not answer the data request is
    /// rejected with `UnableToSerDe` and never decoded.
    pub fn deserialize(rx: &[u8]) -> (r: Result<InputModule6ChannelValues, CommunicationError>)
        requires
            INPUTMODULE6CHANNELMESSAGELENGTH <= rx@.len(),
        ensures
            r == input_values_of(rx@),
    {
        if !check_header(
            rx,
            ModuleCommunicationDirection::FromModule,
            INPUTMODULE6CHANNELMODULEID,
            ModuleCommunicationType::Data,
            1,
        ) {
            return Err(CommunicationError::UnableToSerDe);
        }
        Ok(
            InputModule6ChannelValues {
                channel1: read_le_u32(rx, 6),
                channel2: read_le_u32(rx, 14),
                channel3: read_le_u32(rx, 22),
                channel4: read_le_u32(rx, 30),
                channel5: read_le_u32(rx, 38),
                channel6: read_le_u32(rx, 46),
            },
        )
    }
}

/// Configuration of the module: the settings of each channel and the state
/// of the three sensor supplies, each shared by a pair of adjacent channels.
#[derive(Clone, Copy, Debug)]
pub struct InputModule6ChannelConfiguration {
    channels: [InputModule6ChannelChannel; 6],
    supplies: [InputModule6ChannelSupply; 3],
}

/// `base` carrying the configuration payload: the six byte record of channel
/// `i` at `6 + 6 * i`, the state of supply `p` at `42 + p`.
pub open spec fn input_configuration_payload(
    base: Seq<u8>,
    channels: Seq<InputModule6ChannelChannel>,
    supplies: Seq<InputModule6ChannelSupply>,
) -> Seq<u8> {
    Seq::new(
        base.len(),
        |k: int|
            if 6 <= k < 42 {
                channels[(k - 6) / 6].wire_byte((k - 6) % 6)
            } else if 42 <= k < 45 {
                supplies[k - 42].wire()
            } else {
                base[k]
            },
    )
}

/// `base` carrying the payload that sets the counter of `channel` to `value`:
/// the channel number at 6, the value from 7 on.
pub open spec fn reset_counter_payload(
    base: Seq<u8>,
    channel: InputModule6ChannelNum,
    value: i32,
) -> Seq<u8> {
    with_le_i32(base.update(6, channel.number()), 7, value)
}

/// Writes the payload that sets the counter of `channel` to `value`.
pub fn write_reset_counter(tx: &mut [u8], channel: InputModule6ChannelNum, value: i32)
    requires
        old(tx)@.len() >= 11,
    ensures
        final(tx)@ == reset_counter_payload(old(tx)@, channel, value),
{
    tx[6] = channel.code();
    write_le_i32(tx, 7, value);
}

impl InputModule6ChannelConfiguration {
    /// The settings of the six channels, channel one first.
    pub closed spec fn channels(&self) -> Seq<InputModule6ChannelChannel> {
        self.channels@
    }

    /// The state of the three supplies, the one of channels one and two first.
    pub closed spec fn supplies(&self) -> Seq<InputModule6ChannelSupply> {
        self.supplies@
    }

    /// Every configuration holds six channels and three supplies.
    pub broadcast proof fn lemma_shape(&self)
        ensures
            #[trigger] self.channels().len() == 6,
            #[trigger] self.supplies().len() == 3,
    {
    }

    /// The settings of `channel`.
    pub fn channel(&self, channel: InputModule6ChannelNum) -> (settings: InputModule6ChannelChannel)
        ensures
            settings == self.channels()[channel.number() - 1],
    {
        self.channels[channel.index()]
    }

    /// The state of the supply of pair `pair`, counted from zero.
    pub fn supply(&self, pair: usize) -> (state: InputModule6ChannelSupply)
        requires
            pair < 3,
        ensures
            state == self.supplies()[pair as int],
    {
        self.supplies[pair]
    }

    /// Writes the configuration payload into `tx`. The header, the checksum
    /// and every byte from 45 on are left as they are.
    pub fn serialize(&self, tx: &mut [u8])
        requires
            old(tx)@.len() >= 45,
        ensures
            final(tx)@ == input_configuration_payload(old(tx)@, self.channels(), self.supplies()),
    {
        let mut i: usize = 0;
        while i < 6
            invariant
                i <= 6,
                tx@.len() == old(tx)@.len(),
                tx@.len() >= 45,
                forall|k: int|
                    6 <= k < 6 + 6 * i ==> tx@[k] == self.channels@[(k - 6) / 6].wire_byte(
                        (k - 6) % 6,
                    ),
                forall|k: int| 0 <= k < tx@.len() && !(6 <= k < 6 + 6 * i) ==> tx@[k] == old(tx)@[k],
            decreases 6 - i,
        {
            let channel = self.channels[i];
            let parameter = channel.func.parameter();
            tx[6 + i * 6] = channel.func.discriminant();
            tx[7 + i * 6] = channel.flags();
            tx[8 + i * 6] = parameter.0;
            tx[9 + i * 6] = parameter.1;
            tx[10 + i * 6] = 0;
            tx[11 + i * 6] = 0;
            i += 1;
        }
        tx[42] = self.supplies[0].code();
        tx[43] = self.supplies[1].code();
        tx[44] = self.supplies[2].code();
        assert(tx@ =~= input_configuration_payload(old(tx)@, self.channels(), self.supplies()));
    }
}

impl Default for InputModule6ChannelConfiguration {
    /// Every channel with its initial settings, every supply on.
    fn default() -> (configuration: Self)
        ensures
            configuration.channels() == Seq::new(6, |i: int| InputModule6ChannelChannel::initial()),
            configuration.supplies() == Seq::new(3, |i: int| InputModule6ChannelSupply::On),
    {
        let channel = InputModule6ChannelChannel::default();
        let configuration = InputModule6ChannelConfiguration {
            channels: [channel; 6],
            supplies: [InputModule6ChannelSupply::On; 3],
        };
        assert(configuration.channels() =~= Seq::new(
            6,
            |i: int| InputModule6ChannelChannel::initial(),
        ));
        assert(configuration.supplies() =~= Seq::new(3, |i: int| InputModule6ChannelSupply::On));
        configuration
    }
}

/// The frame that requests the readings from the module in slot `slot`.
pub open spec fn input_data_request(slot: u8) -> Seq<u8> {
    framed(
        blank(INPUTMODULE6CHANNELBUFFERLENGTH as nat),
        slot,
        INPUTMODULE6CHANNELMESSAGELENGTH as int,
        ModuleCommunicationDirection::ToModule,
        INPUTMODULE6CHANNELMODULEID,
        ModuleCommunicationType::Data,
        1,
    )
}

/// The frame that sets the counter of `channel` of the module in slot `slot`
/// to `value`.
pub open spec fn reset_counter_frame(slot: u8, channel: InputModule6ChannelNum, value: i32) -> Seq<
    u8,
> {
    framed(
        reset_counter_payload(blank(INPUTMODULE6CHANNELBUFFERLENGTH as nat), channel, value),
        slot,
        INPUTMODULE6CHANNELMESSAGELENGTH as int,
        ModuleCommunicationDirection::ToModule,
        INPUTMODULE6CHANNELMODULEID,
        ModuleCommunicationType::Data,
        2,
    )
}

/// The frame that configures the module in slot `slot`.
pub open spec fn input_configuration_frame(
    slot: u8,
    configuration: InputModule6ChannelConfiguration,
) -> Seq<u8> {
    framed(
        input_configuration_payload(
            blank(INPUTMODULE6CHANNELBUFFERLENGTH as nat),
            configuration.channels(),
            configuration.supplies(),
        ),
        slot,
        INPUTMODULE6CHANNELMESSAGELENGTH as int,
        ModuleCommunicationDirection::ToModule,
        INPUTMODULE6CHANNELMODULEID,
        ModuleCommunicationType::Configuration,
        1,
    )
}

/// `added` is what sending the configuration adds to the trace of a
/// transport, and `bound` tells whether the module is bound by it: it is if
/// and only if the configuration frame was written and the channel reported
/// success.
pub open spec fn is_input_bind_run(
    added: Seq<LinkEvent>,
    state: DriverState<InputModule6ChannelConfiguration>,
    bound: bool,
) -> bool {
    &&& is_send_run(
        added,
        state.transport.policy,
        CONFIGURATION_DELAY_US,
        input_configuration_frame(state.transport.slot, state.configuration),
    )
    &&& bound == write_done(added)
}

/// `added` is what building adds to the trace of a transport, and `bound`
/// tells whether the module is bound by it. The bootloader escape comes
/// first. Unless it is answered with the identity of an input module
/// nothing else is done and the module is not bound; otherwise the
/// configuration is sent.
pub open spec fn is_input_build_run(
    added: Seq<LinkEvent>,
    state: DriverState<InputModule6ChannelConfiguration>,
    bound: bool,
) -> bool {
    &&& added.len() >= 1
    &&& added[0] matches LinkEvent::Transfer { sent, received, .. } && {
        &&& sent == escape_frame_bytes()
        &&& received.len() == BOOTMESSAGELENGTH
    }
    &&& if escape_identified(added, input_identity()) {
        is_input_bind_run(added.skip(1), state, bound)
    } else {
        added.len() == 1 && !bound
    }
}

/// A bound input module: the only value through which readings can be
/// requested. It exists only after the module in the slot has identified
/// itself as an input module and has been sent its configuration.
pub struct InputModule6Channel<SPI, ResetPin, InterruptPin, Delay> {
    module: GoModule<SPI, ResetPin, InterruptPin, Delay>,
    configuration: InputModule6ChannelConfiguration,
}

/// Collects the configuration of an input module before it is bound.
pub struct InputModule6ChannelBuilder<SPI, ResetPin, InterruptPin, Delay> {
    module: GoModule<SPI, ResetPin, InterruptPin, Delay>,
    config: InputModule6ChannelConfiguration,
}

impl<SPI, ResetPin, InterruptPin, Delay> View for InputModule6Channel<
    SPI,
    ResetPin,
    InterruptPin,
    Delay,
> {
    type V = DriverState<InputModule6ChannelConfiguration>;

    closed spec fn view(&self) -> DriverState<InputModule6ChannelConfiguration> {
        DriverState { transport: self.module@, configuration: self.configuration }
    }
}

impl<SPI, ResetPin, InterruptPin, Delay> View for InputModule6ChannelBuilder<
    SPI,
    ResetPin,
    InterruptPin,
    Delay,
> {
    type V = DriverState<InputModule6ChannelConfiguration>;

    closed spec fn view(&self) -> DriverState<InputModule6ChannelConfiguration> {
        DriverState { transport: self.module@, configuration: self.config }
    }
}

impl<SPI, ResetPin, InterruptPin, Delay> InputModule6Channel<
    SPI,
    ResetPin,
    InterruptPin,
    Delay,
> where SPI: DuplexLink, ResetPin: ResetLine, InterruptPin: ReadyLine, Delay: DelaySource {
    /// The transport this driver holds.
    pub closed spec fn transport(&self) -> GoModule<SPI, ResetPin, InterruptPin, Delay> {
        self.module
    }

    /// The configuration the module was bound with.
    pub fn configuration(&self) -> (configuration: &InputModule6ChannelConfiguration)
        ensures
            *configuration == self@.configuration,
    {
        &self.configuration
    }

    /// Gives the module up: hands back the unidentified transport, with
    /// every resource, and the configuration the module was bound with.
    pub fn reconfigure(self) -> (released: (
        GoModuleUnknown<SPI, ResetPin, InterruptPin, Delay>,
        InputModule6ChannelConfiguration,
    ))
        ensures
            (released.0@, released.1) == released_state(self@),
            released.0.trace() == self.transport().trace(),
            released.0.link() == self.transport().link(),
            released.0.reset_line() == self.transport().reset_line(),
            released.0.ready_line() == self.transport().ready_line(),
            released.0.delay_source() == self.transport().delay_source(),
    {
        (self.module.degrade(), self.configuration)
    }

    /// Gives the module up, resets it and builds it again with the
    /// configuration it was bound with. A module bound again is in the state
    /// it was in before: the same slot, the same policy, the same
    /// configuration, as after a build from that configuration on a fresh
    /// transport of the slot. On any failure the unidentified transport and
    /// the configuration come back.
    pub fn rebuild(self) -> (r: Result<
        InputModule6Channel<SPI, ResetPin, InterruptPin, Delay>,
        (GoModuleUnknown<SPI, ResetPin, InterruptPin, Delay>, InputModule6ChannelConfiguration),
    >)
        ensures
            match r {
                Ok(bound) => bound@ == self@,
                Err((unknown, configuration)) => (unknown@, configuration) == released_state(
                    self@,
                ),
            },
            continues(
                self.transport().trace(),
                InputModule6ChannelBuilder::<SPI, ResetPin, InterruptPin, Delay>::trace_after(r),
            ),
            ({
                let before = self.transport().trace();
                let after = InputModule6ChannelBuilder::<
                    SPI,
                    ResetPin,
                    InterruptPin,
                    Delay,
                >::trace_after(r);
                let reset = before + reset_events(true, true);
                ||| r is Err && after == before + reset_events(false, false)
                ||| r is Err && after == before + reset_events(true, false)
                ||| continues(reset, after) && is_input_build_run(
                    added_events(reset, after),
                    self@,
                    r is Ok,
                )
            }),
    {
        let (unknown, configuration) = self.reconfigure();
        let module = match unknown.module_reset() {
            Ok(module) => module,
            Err(unknown) => {
                proof {
                    lemma_appended(self.transport().trace(), reset_events(false, false));
                    lemma_appended(self.transport().trace(), reset_events(true, false));
                }
                return Err((unknown, configuration));
            },
        };
        let r = InputModule6ChannelBuilder::from_configuration(module, configuration).build();
        proof {
            let before = self.transport().trace();
            lemma_appended(before, reset_events(true, true));
            lemma_continues_on(
                before,
                before + reset_events(true, true),
                InputModule6ChannelBuilder::<SPI, ResetPin, InterruptPin, Delay>::trace_after(r),
            );
        }
        r
    }

    /// Requests the readings of the six channels with one exchange. The
    /// readings are those of the answer, which must be intact and answer
    /// the data request; an answer that is intact but answers something else
    /// is `UnableToSerDe`.
    pub fn read_channels(&mut self) -> (r: Result<
        InputModule6ChannelValues,
        GoModuleError<SPI::Error, ResetPin::Error, InterruptPin::Error>,
    >)
        ensures
            final(self)@ == old(self)@,
            final(self).transport().trace() == old(self).transport().trace() + exchange_events(
                old(self)@.transport.policy,
                0,
                input_data_request(old(self)@.transport.slot),
                last_received(final(self).transport().trace()),
                observed_level(r),
                channel_done(r),
            ),
            match r {
                Ok(values) => {
                    &&& frame_intact(
                        last_received(final(self).transport().trace()),
                        INPUTMODULE6CHANNELMESSAGELENGTH as int,
                    )
                    &&& input_values_of(last_received(final(self).transport().trace())) == Ok::<
                        InputModule6ChannelValues,
                        CommunicationError,
                    >(values)
                },
                Err(GoModuleError::CommunicationError(CommunicationError::UnableToSerDe)) => {
                    &&& frame_intact(
                        last_received(final(self).transport().trace()),
                        INPUTMODULE6CHANNELMESSAGELENGTH as int,
                    )
                    &&& input_values_of(last_received(final(self).transport().trace())) is Err
                },
                Err(GoModuleError::CommunicationError(CommunicationError::ChecksumIncorrect)) => {
                    !frame_intact(
                        last_received(final(self).transport().trace()),
                        INPUTMODULE6CHANNELMESSAGELENGTH as int,
                    )
                },
                Err(GoModuleError::CommunicationError(CommunicationError::ModuleUnavailable)) => old(
                    self,
                )@.transport.policy != ReadyPolicy::Unchecked,
                Err(GoModuleError::InterruptPin(_)) => old(self)@.transport.policy
                    != ReadyPolicy::Unchecked,
                Err(GoModuleError::SPI(_)) => true,
                Err(_) => false,
            },
    {
        let mut tx = [0u8; 60];
        let mut rx = [0u8; 60];
        assert(tx@ =~= blank(INPUTMODULE6CHANNELBUFFERLENGTH as nat));
        match self.module.send_receive_spi(
            ModuleCommunicationDirection::ToModule,
            INPUTMODULE6CHANNELMODULEID,
            ModuleCommunicationType::Data,
            1,
            &mut tx,
            &mut rx,
            INPUTMODULE6CHANNELMESSAGELENGTH,
            0,
        ) {
            Ok(()) => {},
            Err(e) => {
                return Err(e);
            },
        }
        match InputModule6ChannelValues::deserialize(&rx) {
            Ok(values) => Ok(values),
            Err(e) => Err(GoModuleError::CommunicationError(e)),
        }
    }

    /// Sets the counter of `channel` to `value` with a one-way write.
    pub fn reset_counter(&mut self, channel: InputModule6ChannelNum, value: i32) -> (r: Result<
        (),
        GoModuleError<SPI::Error, ResetPin::Error, InterruptPin::Error>,
    >)
        ensures
            final(self)@ == old(self)@,
            final(self).transport().trace() == old(self).transport().trace() + send_events(
                old(self)@.transport.policy,
                0,
                reset_counter_frame(old(self)@.transport.slot, channel, value),
                observed_level(r),
                r is Ok,
            ),
            match r {
                Ok(()) => true,
                Err(GoModuleError::SPI(_)) => true,
                Err(GoModuleError::CommunicationError(CommunicationError::ModuleUnavailable)) => old(
                    self,
                )@.transport.policy != ReadyPolicy::Unchecked,
                Err(GoModuleError::InterruptPin(_)) => old(self)@.transport.policy
                    != ReadyPolicy::Unchecked,
                Err(_) => false,
            },
    {
        let mut tx = [0u8; 60];
        assert(tx@ =~= blank(INPUTMODULE6CHANNELBUFFERLENGTH as nat));
        write_reset_counter(&mut tx, channel, value);
        self.module.send_spi(
            ModuleCommunicationDirection::ToModule,
            INPUTMODULE6CHANNELMODULEID,
            ModuleCommunicationType::Data,
            2,
            &mut tx,
            INPUTMODULE6CHANNELMESSAGELENGTH,
            0,
        )
    }
}

impl<SPI, ResetPin, InterruptPin, Delay> InputModule6ChannelBuilder<
    SPI,
    ResetPin,
    InterruptPin,
    Delay,
> where SPI: DuplexLink, ResetPin: ResetLine, InterruptPin: ReadyLine, Delay: DelaySource {
    /// The transport this builder holds.
    pub closed spec fn transport(&self) -> GoModule<SPI, ResetPin, InterruptPin, Delay> {
        self.module
    }

    /// The trace of the transport that building hands out, bound or not.
    pub open spec fn trace_after(
        r: Result<
            InputModule6Channel<SPI, ResetPin, InterruptPin, Delay>,
            (GoModuleUnknown<SPI, ResetPin, InterruptPin, Delay>, InputModule6ChannelConfiguration),
        >,
    ) -> Seq<LinkEvent> {
        match r {
            Ok(bound) => bound.transport().trace(),
            Err((unknown, _)) => unknown.trace(),
        }
    }

    /// Starts from the initial configuration.
    pub fn new(module: GoModule<SPI, ResetPin, InterruptPin, Delay>) -> (builder: Self)
        ensures
            builder.transport() == module,
            builder@.transport == module@,
            builder@.configuration.channels() == Seq::new(
                6,
                |i: int| InputModule6ChannelChannel::initial(),
            ),
            builder@.configuration.supplies() == Seq::new(3, |i: int| InputModule6ChannelSupply::On),
    {
        InputModule6ChannelBuilder { module, config: InputModule6ChannelConfiguration::default() }
    }

    /// Starts from a configuration that was handed back earlier.
    pub fn from_configuration(
        module: GoModule<SPI, ResetPin, InterruptPin, Delay>,
        config: InputModule6ChannelConfiguration,
    ) -> (builder: Self)
        ensures
            builder.transport() == module,
            builder@ == bound_state(module@, config),
    {
        InputModule6ChannelBuilder { module, config }
    }

    /// Replaces the settings of `channel`; every other channel and the
    /// supplies stay as they are.
    pub fn configure_channel(
        self,
        channel: InputModule6ChannelNum,
        func: InputModule6ChannelFunc,
        pu: InputModule6ChannelPullUp,
        pd: InputModule6ChannelPullDown,
        volt: InputModule6ChannelVoltage,
    ) -> (builder: Self)
        ensures
            builder.transport() == self.transport(),
            builder@.transport == self@.transport,
            builder@.configuration.channels() == self@.configuration.channels().update(
                channel.number() - 1,
                InputModule6ChannelChannel { func, pu, pd, volt },
            ),
            builder@.configuration.supplies() == self@.configuration.supplies(),
    {
        let mut config = self.config;
        config.channels[channel.index()] = InputModule6ChannelChannel { func, pu, pd, volt };
        InputModule6ChannelBuilder { module: self.module, config }
    }

    /// Sets the three sensor supplies, each shared by a pair of adjacent
    /// channels; the channels stay as they are.
    pub fn configure_supplies(
        self,
        supply1: InputModule6ChannelSupply,
        supply2: InputModule6ChannelSupply,
        supply3: InputModule6ChannelSupply,
    ) -> (builder: Self)
        ensures
            builder.transport() == self.transport(),
            builder@.transport == self@.transport,
            builder@.configuration.channels() == self@.configuration.channels(),
            builder@.configuration.supplies() == seq![supply1, supply2, supply3],
    {
        let mut config = self.config;
        config.supplies[0] = supply1;
        config.supplies[1] = supply2;
        config.supplies[2] = supply3;
        assert(config.supplies@ =~= seq![supply1, supply2, supply3]);
        InputModule6ChannelBuilder { module: self.module, config }
    }

    /// Binds the module, given what the bootloader escape returned. Unless
    /// the escape was answered with the identity of an input module no
    /// resource is used: the transport comes back unidentified and
    /// untouched, beside the configuration. Otherwise the configuration frame
    /// is sent, and the module is bound if and only if that write succeeds.
    pub fn bind<E>(self, bootmessage: &Result<[u8; 46], E>) -> (r: Result<
        InputModule6Channel<SPI, ResetPin, InterruptPin, Delay>,
        (GoModuleUnknown<SPI, ResetPin, InterruptPin, Delay>, InputModule6ChannelConfiguration),
    >)
        ensures
            match r {
                Ok(bound) => bound@ == self@,
                Err((unknown, configuration)) => (unknown@, configuration) == released_state(
                    self@,
                ),
            },
            if bootmessage matches Ok(answer) && identity_of(answer@) == input_identity() {
                &&& continues(self.transport().trace(), Self::trace_after(r))
                &&& is_input_bind_run(
                    added_events(self.transport().trace(), Self::trace_after(r)),
                    self@,
                    r is Ok,
                )
            } else {
                r matches Err((unknown, _)) && {
                    &&& unknown.trace() == self.transport().trace()
                    &&& unknown.link() == self.transport().link()
                    &&& unknown.reset_line() == self.transport().reset_line()
                    &&& unknown.ready_line() == self.transport().ready_line()
                    &&& unknown.delay_source() == self.transport().delay_source()
                }
            },
    {
        let mut module = self.module;
        let configuration = self.config;
        let expected = input_module_identity();
        if !identified(bootmessage, &expected) {
            return Err((module.degrade(), configuration));
        }
        let mut tx = [0u8; 60];
        assert(tx@ =~= blank(INPUTMODULE6CHANNELBUFFERLENGTH as nat));
        configuration.serialize(&mut tx);
        let sent = module.send_spi(
            ModuleCommunicationDirection::ToModule,
            INPUTMODULE6CHANNELMODULEID,
            ModuleCommunicationType::Configuration,
            1,
            &mut tx,
            INPUTMODULE6CHANNELMESSAGELENGTH,
            CONFIGURATION_DELAY_US,
        );
        proof {
            lemma_appended(
                self.transport().trace(),
                send_events(
                    self@.transport.policy,
                    CONFIGURATION_DELAY_US,
                    tx@,
                    observed_level(sent),
                    sent is Ok,
                ),
            );
        }
        if sent.is_err() {
            return Err((module.degrade(), configuration));
        }
        Ok(InputModule6Channel { module, configuration })
    }

    /// Makes the module leave its bootloader, checks that it identifies
    /// itself as an input module and sends it the configuration. The module
    /// is bound if and only if the escape is answered with the identity of
    /// an input module and the configuration frame is written; otherwise
    /// the unidentified transport and the configuration come back, and after
    /// a wrong identity nothing more has been sent.
    pub fn build(self) -> (r: Result<
        InputModule6Channel<SPI, ResetPin, InterruptPin, Delay>,
        (GoModuleUnknown<SPI, ResetPin, InterruptPin, Delay>, InputModule6ChannelConfiguration),
    >)
        ensures
            match r {
                Ok(bound) => bound@ == self@,
                Err((unknown, configuration)) => (unknown@, configuration) == released_state(
                    self@,
                ),
            },
            continues(self.transport().trace(), Self::trace_after(r)),
            is_input_build_run(
                added_events(self.transport().trace(), Self::trace_after(r)),
                self@,
                r is Ok,
            ),
            !escape_identified(
                added_events(self.transport().trace(), Self::trace_after(r)),
                input_identity(),
            ) ==> (r matches Err((unknown, _)) && {
                &&& unknown.reset_line() == self.transport().reset_line()
                &&& unknown.ready_line() == self.transport().ready_line()
                &&& unknown.delay_source() == self.transport().delay_source()
            }),
    {
        let mut builder = self;
        let bootmessage = builder.module.escape_module_bootloader();
        let ghost escaped = builder.module.trace();
        let r = builder.bind(&bootmessage);
        proof {
            let before = self.transport().trace();
            let after = Self::trace_after(r);
            assert(escaped =~= before.push(escaped.last()));
            assert(continues(escaped, after));
            assert(continues(before, after));
            let added = added_events(before, after);
            assert(added[0] == escaped.last());
            assert(added.skip(1) =~= added_events(escaped, after));
        }
        r
    }
}

/// An answer to the bootloader escape that differs from the expected
/// identity in any one of the three identity bytes does not carry that
/// identity.
pub proof fn lemma_identity_gate(bootmessage: Seq<u8>, expected: Seq<u8>, position: int)
    requires
        bootmessage.len() == 46,
        expected.len() == 3,
        0 <= position < 3,
        bootmessage[6 + position] != expected[position],
    ensures
        identity_of(bootmessage) != expected,
{
    assert(identity_of(bootmessage)[position] == bootmessage[6 + position]);
}

/// An intact response whose message index is not the one of the data
/// request is never decoded: it is `UnableToSerDe`. The same holds of a
/// wrong direction, module id or message type.
pub proof fn lemma_unrequested_response_rejected(rx: Seq<u8>)
    requires
        rx.len() >= INPUTMODULE6CHANNELMESSAGELENGTH,
        rx[5] != 1 || rx[2] != ModuleCommunicationDirection::FromModule.wire() || rx[3]
            != INPUTMODULE6CHANNELMODULEID || rx[4] != ModuleCommunicationType::Data.wire(),
    ensures
        input_values_of(rx) == Err::<InputModule6ChannelValues, CommunicationError>(
            CommunicationError::UnableToSerDe,
        ),
{
}

} // verus!
