use std::cell::RefCell;
use std::collections::VecDeque;
use std::rc::Rc;

use go_module::error::{CommunicationError, GoModuleError};
use go_module::frame::{
    module_checksum, write_header, ModuleCommunicationDirection, ModuleCommunicationType,
};
use go_module::input_6_channel::{
    input_module_identity, write_reset_counter, InputModule6Channel, InputModule6ChannelBuilder,
    InputModule6ChannelChannel, InputModule6ChannelConfiguration, InputModule6ChannelFunc,
    InputModule6ChannelNum, InputModule6ChannelPullDown, InputModule6ChannelPullUp,
    InputModule6ChannelSupply, InputModule6ChannelValues, InputModule6ChannelVoltage,
};
use go_module::link::{DelaySource, DuplexLink, LineState, ReadyLine, ResetLine};
use go_module::transport::{
    escape_frame, escape_outcome, exchange_outcome, identified, identity_matches, level_outcome,
    ready_outcome, reset_outcome, write_outcome, GoModule, GoModuleUnknown, ReadyPolicy,
};

/// What happened on the resources of one slot, in order.
#[derive(Debug, Clone, PartialEq, Eq)]
enum Event {
    Transfer(Vec<u8>),
    Write(Vec<u8>),
    Reset(LineState),
    ReadReady,
    DelayUs(u32),
    DelayMs(u32),
}

#[derive(Default)]
struct Bench {
    events: Vec<Event>,
    answers: VecDeque<Result<Vec<u8>, u8>>,
    writes: VecDeque<Result<(), u8>>,
    resets: VecDeque<Result<(), u8>>,
    ready: VecDeque<Result<bool, u8>>,
}

#[derive(Clone)]
struct Handle(Rc<RefCell<Bench>>);

impl DuplexLink for Handle {
    type Error = u8;

    fn transfer<const N: usize>(&mut self, rx: &mut [u8; N], tx: &[u8; N]) -> Result<(), u8> {
        let mut bench = self.0.borrow_mut();
        bench.events.push(Event::Transfer(tx.to_vec()));
        match bench.answers.pop_front() {
            Some(Ok(answer)) => {
                rx[..answer.len()].copy_from_slice(&answer);
                Ok(())
            }
            Some(Err(code)) => Err(code),
            None => Ok(()),
        }
    }

    fn write<const N: usize>(&mut self, tx: &[u8; N]) -> Result<(), u8> {
        let mut bench = self.0.borrow_mut();
        bench.events.push(Event::Write(tx.to_vec()));
        bench.writes.pop_front().unwrap_or(Ok(()))
    }
}

impl ResetLine for Handle {
    type Error = u8;

    fn set_state(&mut self, state: LineState) -> Result<(), u8> {
        let mut bench = self.0.borrow_mut();
        bench.events.push(Event::Reset(state));
        bench.resets.pop_front().unwrap_or(Ok(()))
    }
}

impl ReadyLine for Handle {
    type Error = u8;

    fn is_high(&mut self) -> Result<bool, u8> {
        let mut bench = self.0.borrow_mut();
        bench.events.push(Event::ReadReady);
        bench.ready.pop_front().unwrap_or(Ok(true))
    }
}

impl DelaySource for Handle {
    fn delay_us(&mut self, us: u32) {
        self.0.borrow_mut().events.push(Event::DelayUs(us));
    }

    fn delay_ms(&mut self, ms: u32) {
        self.0.borrow_mut().events.push(Event::DelayMs(ms));
    }
}

type Unknown = GoModuleUnknown<Handle, Handle, Handle, Handle>;
type Module = GoModule<Handle, Handle, Handle, Handle>;
type Error = GoModuleError<u8, u8, u8>;

fn bench() -> Handle {
    Handle(Rc::new(RefCell::new(Bench::default())))
}

fn unknown(handle: &Handle, slot: u8) -> Unknown {
    GoModuleUnknown::new(handle.clone(), handle.clone(), handle.clone(), handle.clone(), slot)
}

fn module(handle: &Handle, slot: u8) -> Module {
    let module = match unknown(handle, slot).module_reset() {
        Ok(module) => module,
        Err(_) => panic!("reset failed"),
    };
    handle.0.borrow_mut().events.clear();
    module
}

fn events(handle: &Handle) -> Vec<Event> {
    handle.0.borrow().events.clone()
}

fn boot_answer(identity: [u8; 3]) -> Vec<u8> {
    let mut answer = vec![0u8; 46];
    answer[6..9].copy_from_slice(&identity);
    answer
}

fn input_response(direction: u8, module_id: u8, message_type: u8, index: u8) -> Vec<u8> {
    let mut frame = vec![0u8; 60];
    frame[0] = 3;
    frame[1] = 54;
    frame[2] = direction;
    frame[3] = module_id;
    frame[4] = message_type;
    frame[5] = index;
    frame[6..10].copy_from_slice(&[0x01, 0x00, 0x00, 0x00]);
    frame[14..18].copy_from_slice(&[0x02, 0x01, 0x00, 0x00]);
    frame[22..26].copy_from_slice(&[0xff, 0xff, 0xff, 0xff]);
    frame[30..34].copy_from_slice(&[0x00, 0x00, 0x00, 0x80]);
    frame[38..42].copy_from_slice(&[0x78, 0x56, 0x34, 0x12]);
    frame[46..50].copy_from_slice(&[0x00, 0x00, 0x01, 0x00]);
    frame[54] = module_checksum(&frame, 55);
    frame
}

fn is_comm(result: &Result<(), Error>, expected: CommunicationError) -> bool {
    matches!(result, Err(GoModuleError::CommunicationError(e)) if *e == expected)
}

#[test]
fn escape_frame_is_fixed() {
    let frame = escape_frame();
    let mut expected = [0u8; 46];
    expected[0] = 19;
    expected[1] = 45;
    expected[2] = 19;
    expected[45] = 83;
    assert_eq!(frame, expected);
}

#[test]
fn identity_sits_at_offset_six() {
    let mut answer = [0u8; 46];
    answer[6] = 20;
    answer[7] = 10;
    answer[8] = 1;
    assert!(identity_matches(&answer, &[20, 10, 1]));
    assert!(!identity_matches(&answer, &[20, 20, 2]));
    answer[5] = 20;
    answer[9] = 1;
    assert!(identity_matches(&answer, &[20, 10, 1]));
    for position in 0..3 {
        let mut other = answer;
        other[6 + position] ^= 1;
        assert!(!identity_matches(&other, &[20, 10, 1]));
    }
}

#[test]
fn identified_needs_an_answer() {
    let mut answer = [0u8; 46];
    answer[6..9].copy_from_slice(&[20, 20, 2]);
    assert!(identified::<u8>(&Ok(answer), &[20, 20, 2]));
    assert!(!identified::<u8>(&Ok(answer), &[20, 10, 1]));
    assert!(!identified::<u8>(&Err(7), &[20, 20, 2]));
}

#[test]
fn ready_line_decides_on_a_gated_transfer() {
    assert!(ready_outcome::<u8, u8, u8>(Ok(true)).is_ok());
    assert!(is_comm(
        &ready_outcome::<u8, u8, u8>(Ok(false)),
        CommunicationError::ModuleUnavailable
    ));
    assert!(matches!(
        ready_outcome::<u8, u8, u8>(Err(9)),
        Err(GoModuleError::InterruptPin(9))
    ));
}

#[test]
fn channel_failure_of_a_write_is_handed_on() {
    assert!(write_outcome::<u8, u8, u8>(Ok(())).is_ok());
    assert!(matches!(write_outcome::<u8, u8, u8>(Err(4)), Err(GoModuleError::SPI(4))));
}

#[test]
fn exchange_outcome_checks_the_answer() {
    let good = input_response(2, 11, 3, 1);
    assert!(exchange_outcome::<u8, u8, u8>(Ok(()), &good, 55).is_ok());
    let mut bad = good.clone();
    bad[20] ^= 0x10;
    assert!(is_comm(
        &exchange_outcome::<u8, u8, u8>(Ok(()), &bad, 55),
        CommunicationError::ChecksumIncorrect
    ));
    let mut wrong_length = good.clone();
    wrong_length[1] = 55;
    wrong_length[54] = module_checksum(&wrong_length, 55);
    assert!(is_comm(
        &exchange_outcome::<u8, u8, u8>(Ok(()), &wrong_length, 55),
        CommunicationError::ChecksumIncorrect
    ));
    assert!(matches!(
        exchange_outcome::<u8, u8, u8>(Err(3), &good, 55),
        Err(GoModuleError::SPI(3))
    ));
    let request = input_response(1, 11, 3, 1);
    assert!(exchange_outcome::<u8, u8, u8>(Ok(()), &request, 55).is_ok());
}

#[test]
fn new_transport_keeps_its_slot() {
    let handle = bench();
    for slot in 1..=8u8 {
        assert_eq!(unknown(&handle, slot).slot(), slot);
    }
    assert!(events(&handle).is_empty());
}

#[test]
fn reset_toggles_low_then_high_with_settling() {
    let handle = bench();
    let module = match unknown(&handle, 5).module_reset() {
        Ok(module) => module,
        Err(_) => panic!("reset failed"),
    };
    assert_eq!(module.slot(), 5);
    assert_eq!(
        events(&handle),
        vec![
            Event::Reset(LineState::Low),
            Event::DelayMs(100),
            Event::Reset(LineState::High),
            Event::DelayMs(100),
        ]
    );
}

#[test]
fn failed_reset_hands_the_transport_back() {
    let handle = bench();
    handle.0.borrow_mut().resets.push_back(Err(1));
    match unknown(&handle, 2).module_reset() {
        Ok(_) => panic!("reset succeeded"),
        Err(unknown) => assert_eq!(unknown.slot(), 2),
    }
    assert_eq!(events(&handle), vec![Event::Reset(LineState::Low)]);

    let handle = bench();
    handle.0.borrow_mut().resets.extend([Ok(()), Err(1)]);
    match unknown(&handle, 7).module_reset() {
        Ok(_) => panic!("reset succeeded"),
        Err(unknown) => {
            assert_eq!(unknown.slot(), 7);
            assert!(unknown.module_reset().is_ok());
        }
    }
}

#[test]
fn degrade_keeps_slot_and_resources() {
    let handle = bench();
    let unknown = module(&handle, 6).degrade();
    assert_eq!(unknown.slot(), 6);
    let module = match unknown.module_reset() {
        Ok(module) => module,
        Err(_) => panic!("reset failed"),
    };
    assert_eq!(module.slot(), 6);
    assert_eq!(events(&handle).len(), 4);
}

#[test]
fn escape_sends_the_probe_and_returns_the_raw_answer() {
    let handle = bench();
    let mut answer = boot_answer([20, 10, 1]);
    answer[45] = 0x5a;
    handle.0.borrow_mut().answers.push_back(Ok(answer.clone()));
    let mut module = module(&handle, 1);
    let raw = match module.escape_module_bootloader() {
        Ok(raw) => raw,
        Err(_) => panic!("escape failed"),
    };
    assert_eq!(raw.to_vec(), answer);
    assert_eq!(events(&handle), vec![Event::Transfer(escape_frame().to_vec())]);
}

#[test]
fn escape_hands_on_a_channel_failure() {
    let handle = bench();
    handle.0.borrow_mut().answers.push_back(Err(8));
    let mut module = module(&handle, 1);
    assert!(matches!(module.escape_module_bootloader(), Err(GoModuleError::SPI(8))));
}

#[test]
fn send_spi_frames_the_buffer_and_writes_all_of_it() {
    let handle = bench();
    let mut module = module(&handle, 4);
    let mut tx = [0u8; 12];
    tx[6] = 0xaa;
    tx[7] = 0x01;
    tx[11] = 0x77;
    let sent = module.send_spi(
        ModuleCommunicationDirection::ToModule,
        22,
        ModuleCommunicationType::Configuration,
        2,
        &mut tx,
        10,
        250,
    );
    assert!(sent.is_ok());
    let framed = [4, 9, 1, 22, 2, 2, 0xaa, 0x01, 0, 211, 0, 0x77];
    assert_eq!(tx, framed);
    assert_eq!(
        events(&handle),
        vec![Event::ReadReady, Event::DelayUs(250), Event::Write(framed.to_vec())]
    );
}

#[test]
fn send_spi_reports_an_unavailable_module() {
    let handle = bench();
    handle.0.borrow_mut().ready.push_back(Ok(false));
    let mut module = module(&handle, 4);
    let mut tx = [0u8; 12];
    let sent = module.send_spi(
        ModuleCommunicationDirection::ToModule,
        22,
        ModuleCommunicationType::Data,
        1,
        &mut tx,
        10,
        250,
    );
    assert!(is_comm(&sent, CommunicationError::ModuleUnavailable));
    assert_eq!(events(&handle), vec![Event::ReadReady]);
    assert_eq!(tx[0], 4);
    assert_eq!(tx[1], 9);
}

#[test]
fn send_spi_hands_on_failures_by_origin() {
    let handle = bench();
    handle.0.borrow_mut().ready.push_back(Err(5));
    handle.0.borrow_mut().writes.push_back(Err(6));
    let mut module = module(&handle, 4);
    let mut tx = [0u8; 12];
    let first = module.send_spi(
        ModuleCommunicationDirection::ToModule,
        22,
        ModuleCommunicationType::Data,
        1,
        &mut tx,
        10,
        0,
    );
    assert!(matches!(first, Err(GoModuleError::InterruptPin(5))));
    let second = module.send_spi(
        ModuleCommunicationDirection::ToModule,
        22,
        ModuleCommunicationType::Data,
        1,
        &mut tx,
        10,
        0,
    );
    assert!(matches!(second, Err(GoModuleError::SPI(6))));
}

#[test]
fn ready_policy_orders_the_gate_and_the_delay() {
    for (policy, expected) in [
        (
            ReadyPolicy::Unchecked,
            vec![Event::DelayUs(30), Event::Write(vec![2, 6, 1, 0, 3, 0, 12])],
        ),
        (
            ReadyPolicy::BeforeDelay,
            vec![Event::ReadReady, Event::DelayUs(30), Event::Write(vec![2, 6, 1, 0, 3, 0, 12])],
        ),
        (
            ReadyPolicy::AfterDelay,
            vec![Event::DelayUs(30), Event::ReadReady, Event::Write(vec![2, 6, 1, 0, 3, 0, 12])],
        ),
    ] {
        let handle = bench();
        let mut module = match unknown(&handle, 2).with_ready_policy(policy).module_reset() {
            Ok(module) => module,
            Err(_) => panic!("reset failed"),
        };
        handle.0.borrow_mut().events.clear();
        let mut tx = [0u8; 7];
        let sent = module.send_spi(
            ModuleCommunicationDirection::ToModule,
            0,
            ModuleCommunicationType::Data,
            0,
            &mut tx,
            7,
            30,
        );
        assert!(sent.is_ok());
        assert_eq!(events(&handle), expected);
    }
}

#[test]
fn unchecked_policy_never_reports_an_unavailable_module() {
    let handle = bench();
    handle.0.borrow_mut().ready.push_back(Ok(false));
    let mut module = match unknown(&handle, 2)
        .with_ready_policy(ReadyPolicy::Unchecked)
        .module_reset()
    {
        Ok(module) => module,
        Err(_) => panic!("reset failed"),
    };
    let mut tx = [0u8; 7];
    let sent = module.send_spi(
        ModuleCommunicationDirection::ToModule,
        0,
        ModuleCommunicationType::Data,
        0,
        &mut tx,
        7,
        0,
    );
    assert!(sent.is_ok());
}

#[test]
fn late_gate_reports_an_unavailable_module_after_the_delay() {
    let handle = bench();
    handle.0.borrow_mut().ready.push_back(Ok(false));
    let mut module = match unknown(&handle, 2)
        .with_ready_policy(ReadyPolicy::AfterDelay)
        .module_reset()
    {
        Ok(module) => module,
        Err(_) => panic!("reset failed"),
    };
    handle.0.borrow_mut().events.clear();
    let mut tx = [0u8; 7];
    let mut rx = [0u8; 7];
    let r = module.send_receive_spi(
        ModuleCommunicationDirection::ToModule,
        0,
        ModuleCommunicationType::Data,
        0,
        &mut tx,
        &mut rx,
        7,
        40,
    );
    assert!(is_comm(&r, CommunicationError::ModuleUnavailable));
    assert_eq!(events(&handle), vec![Event::DelayUs(40), Event::ReadReady]);
    assert_eq!(rx, [0u8; 7]);
}

#[test]
fn exchange_accepts_an_intact_answer() {
    let handle = bench();
    let answer = input_response(2, 11, 3, 1);
    handle.0.borrow_mut().answers.push_back(Ok(answer.clone()));
    let mut module = module(&handle, 3);
    let mut tx = [0u8; 60];
    let mut rx = [0u8; 60];
    let r = module.send_receive_spi(
        ModuleCommunicationDirection::ToModule,
        11,
        ModuleCommunicationType::Data,
        1,
        &mut tx,
        &mut rx,
        55,
        0,
    );
    assert!(r.is_ok());
    assert_eq!(rx.to_vec(), answer);
    let mut request = [0u8; 60];
    write_header(
        &mut request,
        3,
        55,
        ModuleCommunicationDirection::ToModule,
        11,
        ModuleCommunicationType::Data,
        1,
    );
    assert_eq!(tx, request);
    assert_eq!(tx[..6], [3, 54, 1, 11, 3, 1]);
    assert_eq!(tx[54], 73);
    assert_eq!(
        events(&handle),
        vec![Event::ReadReady, Event::DelayUs(0), Event::Transfer(request.to_vec())]
    );
}

#[test]
fn exchange_rejects_a_corrupted_answer() {
    let handle = bench();
    let mut answer = input_response(2, 11, 3, 1);
    answer[30] ^= 0x01;
    handle.0.borrow_mut().answers.push_back(Ok(answer));
    handle.0.borrow_mut().answers.push_back(Ok(vec![0u8; 60]));
    handle.0.borrow_mut().answers.push_back(Err(2));
    let mut module = module(&handle, 3);
    for expected in ["checksum", "checksum", "spi"] {
        let mut tx = [0u8; 60];
        let mut rx = [0u8; 60];
        let r = module.send_receive_spi(
            ModuleCommunicationDirection::ToModule,
            11,
            ModuleCommunicationType::Data,
            1,
            &mut tx,
            &mut rx,
            55,
            0,
        );
        match expected {
            "checksum" => assert!(is_comm(&r, CommunicationError::ChecksumIncorrect)),
            _ => assert!(matches!(r, Err(GoModuleError::SPI(2)))),
        }
    }
}

#[test]
fn line_accessors_pass_through() {
    let handle = bench();
    let mut module = module(&handle, 1);
    handle.0.borrow_mut().ready.extend([Ok(true), Ok(false), Err(3)]);
    handle.0.borrow_mut().resets.extend([Ok(()), Err(4)]);
    assert!(matches!(module.get_module_interrupt_state(), Ok(LineState::High)));
    assert!(matches!(module.get_module_interrupt_state(), Ok(LineState::Low)));
    assert!(matches!(
        module.get_module_interrupt_state(),
        Err(GoModuleError::InterruptPin(3))
    ));
    assert!(module.set_module_reset(LineState::Low).is_ok());
    assert!(matches!(
        module.set_module_reset(LineState::High),
        Err(GoModuleError::ResetPin(4))
    ));
    assert_eq!(
        events(&handle),
        vec![
            Event::ReadReady,
            Event::ReadReady,
            Event::ReadReady,
            Event::Reset(LineState::Low),
            Event::Reset(LineState::High),
        ]
    );
    assert_eq!(LineState::from_level(true), LineState::High);
    assert_eq!(LineState::from_level(false), LineState::Low);
}

fn default_input_payload() -> [u8; 60] {
    let mut tx = [0u8; 60];
    for i in 0..6 {
        tx[6 + 6 * i] = 2;
        tx[8 + 6 * i..10 + 6 * i].copy_from_slice(&1000u16.to_le_bytes());
    }
    tx[42] = 1;
    tx[43] = 1;
    tx[44] = 1;
    tx
}

fn bound_input(handle: &Handle, slot: u8) -> InputModule6Channel<Handle, Handle, Handle, Handle> {
    handle.0.borrow_mut().answers.push_back(Ok(boot_answer(input_module_identity())));
    let bound = match InputModule6ChannelBuilder::new(module(handle, slot)).build() {
        Ok(bound) => bound,
        Err(_) => panic!("build failed"),
    };
    handle.0.borrow_mut().events.clear();
    bound
}

#[test]
fn input_identity_is_fixed() {
    assert_eq!(input_module_identity(), [20, 10, 1]);
}

#[test]
fn input_wire_codes() {
    assert_eq!(InputModule6ChannelFunc::AnalogRaw(5).discriminant(), 1);
    assert_eq!(InputModule6ChannelFunc::AnalogmV(5).discriminant(), 2);
    assert_eq!(InputModule6ChannelFunc::Digital.discriminant(), 3);
    assert_eq!(InputModule6ChannelFunc::Frequency.discriminant(), 4);
    assert_eq!(InputModule6ChannelFunc::DutyLow.discriminant(), 5);
    assert_eq!(InputModule6ChannelFunc::DutyHigh.discriminant(), 6);
    assert_eq!(InputModule6ChannelFunc::RPM(5).discriminant(), 7);
    assert_eq!(InputModule6ChannelFunc::PulseCounter.discriminant(), 8);
    assert_eq!(InputModule6ChannelPullUp::PUNone.code(), 0);
    assert_eq!(InputModule6ChannelPullUp::PU3_3k.code(), 3);
    assert_eq!(InputModule6ChannelPullUp::PU4_7k.code(), 1);
    assert_eq!(InputModule6ChannelPullUp::PU10k.code(), 2);
    assert_eq!(InputModule6ChannelPullDown::PDNone.code(), 0);
    assert_eq!(InputModule6ChannelPullDown::PD3_3k.code(), 3);
    assert_eq!(InputModule6ChannelPullDown::PD4_7k.code(), 1);
    assert_eq!(InputModule6ChannelPullDown::PD10k.code(), 2);
    assert_eq!(InputModule6ChannelVoltage::Voltage5V.code(), 0);
    assert_eq!(InputModule6ChannelVoltage::Voltage12V.code(), 1);
    assert_eq!(InputModule6ChannelVoltage::Voltage24V.code(), 2);
    assert_eq!(InputModule6ChannelSupply::On.code(), 1);
    assert_eq!(InputModule6ChannelSupply::Off.code(), 2);
    assert_eq!(InputModule6ChannelNum::One.code(), 1);
    assert_eq!(InputModule6ChannelNum::Six.code(), 6);
    assert_eq!(InputModule6ChannelNum::Four.index(), 3);
}

#[test]
fn input_parameters_are_capped() {
    assert_eq!(InputModule6ChannelFunc::AnalogRaw(0).parameter(), (0, 0));
    assert_eq!(InputModule6ChannelFunc::AnalogRaw(999).parameter(), (0xe7, 0x03));
    assert_eq!(InputModule6ChannelFunc::AnalogRaw(1000).parameter(), (0xe8, 0x03));
    assert_eq!(InputModule6ChannelFunc::AnalogmV(1001).parameter(), (0xe8, 0x03));
    assert_eq!(InputModule6ChannelFunc::AnalogmV(u16::MAX).parameter(), (0xe8, 0x03));
    assert_eq!(InputModule6ChannelFunc::AnalogmV(256).parameter(), (0, 1));
    assert_eq!(InputModule6ChannelFunc::AnalogmV(255).parameter(), (255, 0));
    assert_eq!(InputModule6ChannelFunc::RPM(60).parameter(), (60, 0));
    assert_eq!(InputModule6ChannelFunc::RPM(200).parameter(), (200, 0));
    assert_eq!(InputModule6ChannelFunc::RPM(201).parameter(), (200, 0));
    assert_eq!(InputModule6ChannelFunc::Digital.parameter(), (0, 0));
    assert_eq!(InputModule6ChannelFunc::PulseCounter.parameter(), (0, 0));
}

#[test]
fn input_flags_pack_resistors_and_range() {
    let channel = InputModule6ChannelChannel {
        func: InputModule6ChannelFunc::Digital,
        pu: InputModule6ChannelPullUp::PU3_3k,
        pd: InputModule6ChannelPullDown::PD10k,
        volt: InputModule6ChannelVoltage::Voltage24V,
    };
    assert_eq!(channel.flags(), 3 | 2 << 2 | 2 << 6);
    let channel = InputModule6ChannelChannel {
        func: InputModule6ChannelFunc::Digital,
        pu: InputModule6ChannelPullUp::PU4_7k,
        pd: InputModule6ChannelPullDown::PD3_3k,
        volt: InputModule6ChannelVoltage::Voltage12V,
    };
    assert_eq!(channel.flags(), 0b0100_1101);
    assert_eq!(InputModule6ChannelChannel::default().flags(), 0);
}

#[test]
fn default_input_configuration_serializes() {
    let configuration = InputModule6ChannelConfiguration::default();
    let mut tx = [0u8; 60];
    tx[0] = 0x11;
    tx[45] = 0x22;
    tx[59] = 0x33;
    configuration.serialize(&mut tx);
    assert_eq!(tx[8], 0xe8);
    assert_eq!(tx[9], 0x03);
    let mut expected = default_input_payload();
    expected[0] = 0x11;
    expected[45] = 0x22;
    expected[59] = 0x33;
    assert_eq!(tx, expected);
    assert_eq!(
        configuration.channel(InputModule6ChannelNum::Three),
        InputModule6ChannelChannel::default()
    );
    assert_eq!(configuration.supply(1), InputModule6ChannelSupply::On);
}

#[test]
fn serialize_overwrites_stale_channel_bytes() {
    let mut tx = [0xffu8; 60];
    InputModule6ChannelConfiguration::default().serialize(&mut tx);
    let mut expected = default_input_payload();
    for (i, byte) in expected.iter_mut().enumerate() {
        if !(6..45).contains(&i) {
            *byte = 0xff;
        }
    }
    assert_eq!(tx, expected);
}

#[test]
fn reset_counter_payload_layout() {
    let mut tx = [0u8; 60];
    write_reset_counter(&mut tx, InputModule6ChannelNum::Five, -2);
    let mut expected = [0u8; 60];
    expected[6] = 5;
    expected[7..11].copy_from_slice(&[0xfe, 0xff, 0xff, 0xff]);
    assert_eq!(tx, expected);
}

#[test]
fn input_response_decodes_at_fixed_offsets() {
    let decoded = InputModule6ChannelValues::deserialize(&input_response(2, 11, 3, 1));
    assert_eq!(
        decoded,
        Ok(InputModule6ChannelValues {
            channel1: 1,
            channel2: 258,
            channel3: u32::MAX,
            channel4: 0x8000_0000,
            channel5: 0x1234_5678,
            channel6: 65536,
        })
    );
}

#[test]
fn input_response_with_a_foreign_header_is_not_decoded() {
    for frame in [
        input_response(1, 11, 3, 1),
        input_response(2, 12, 3, 1),
        input_response(2, 11, 4, 1),
        input_response(2, 11, 3, 2),
        input_response(2, 11, 3, 0),
    ] {
        assert_eq!(
            InputModule6ChannelValues::deserialize(&frame),
            Err(CommunicationError::UnableToSerDe)
        );
    }
}

#[test]
fn input_build_binds_a_matching_module() {
    let handle = bench();
    handle.0.borrow_mut().answers.push_back(Ok(boot_answer([20, 10, 1])));
    let builder = InputModule6ChannelBuilder::new(module(&handle, 3));
    let bound = match builder.build() {
        Ok(bound) => bound,
        Err(_) => panic!("build failed"),
    };
    let mut frame = default_input_payload();
    write_header(
        &mut frame,
        3,
        55,
        ModuleCommunicationDirection::ToModule,
        11,
        ModuleCommunicationType::Configuration,
        1,
    );
    assert_eq!(
        events(&handle),
        vec![
            Event::Transfer(escape_frame().to_vec()),
            Event::ReadReady,
            Event::DelayUs(500_000),
            Event::Write(frame.to_vec()),
        ]
    );
    let mut payload = [0u8; 60];
    bound.configuration().serialize(&mut payload);
    assert_eq!(payload, default_input_payload());
}

#[test]
fn input_build_sends_what_was_configured() {
    let handle = bench();
    handle.0.borrow_mut().answers.push_back(Ok(boot_answer([20, 10, 1])));
    let builder = InputModule6ChannelBuilder::new(module(&handle, 8))
        .configure_channel(
            InputModule6ChannelNum::Two,
            InputModule6ChannelFunc::RPM(250),
            InputModule6ChannelPullUp::PU10k,
            InputModule6ChannelPullDown::PDNone,
            InputModule6ChannelVoltage::Voltage12V,
        )
        .configure_channel(
            InputModule6ChannelNum::Six,
            InputModule6ChannelFunc::AnalogRaw(300),
            InputModule6ChannelPullUp::PUNone,
            InputModule6ChannelPullDown::PD4_7k,
            InputModule6ChannelVoltage::Voltage24V,
        )
        .configure_supplies(
            InputModule6ChannelSupply::Off,
            InputModule6ChannelSupply::On,
            InputModule6ChannelSupply::Off,
        );
    assert!(builder.build().is_ok());
    let mut frame = default_input_payload();
    frame[12..18].copy_from_slice(&[7, 2 | 1 << 6, 200, 0, 0, 0]);
    frame[36..42].copy_from_slice(&[1, 1 << 2 | 2 << 6, 0x2c, 0x01, 0, 0]);
    frame[42..45].copy_from_slice(&[2, 1, 2]);
    write_header(
        &mut frame,
        8,
        55,
        ModuleCommunicationDirection::ToModule,
        11,
        ModuleCommunicationType::Configuration,
        1,
    );
    assert_eq!(events(&handle).last(), Some(&Event::Write(frame.to_vec())));
}

#[test]
fn input_build_refuses_every_identity_mismatch() {
    for identity in [[21, 10, 1], [20, 11, 1], [20, 10, 2], [20, 20, 2], [0, 0, 0]] {
        let handle = bench();
        handle.0.borrow_mut().answers.push_back(Ok(boot_answer(identity)));
        let builder = InputModule6ChannelBuilder::new(module(&handle, 3)).configure_supplies(
            InputModule6ChannelSupply::Off,
            InputModule6ChannelSupply::Off,
            InputModule6ChannelSupply::On,
        );
        match builder.build() {
            Ok(_) => panic!("bound a foreign module"),
            Err((unknown, configuration)) => {
                assert_eq!(unknown.slot(), 3);
                assert_eq!(configuration.supply(0), InputModule6ChannelSupply::Off);
                assert_eq!(configuration.supply(2), InputModule6ChannelSupply::On);
            }
        }
        assert_eq!(events(&handle), vec![Event::Transfer(escape_frame().to_vec())]);
    }
}

#[test]
fn input_build_hands_everything_back_on_transport_errors() {
    let handle = bench();
    handle.0.borrow_mut().answers.push_back(Err(1));
    match InputModule6ChannelBuilder::new(module(&handle, 3)).build() {
        Ok(_) => panic!("bound without an answer"),
        Err((unknown, _)) => assert_eq!(unknown.slot(), 3),
    }

    let handle = bench();
    handle.0.borrow_mut().answers.push_back(Ok(boot_answer([20, 10, 1])));
    handle.0.borrow_mut().writes.push_back(Err(1));
    match InputModule6ChannelBuilder::new(module(&handle, 3)).build() {
        Ok(_) => panic!("bound without configuration"),
        Err((unknown, _)) => assert_eq!(unknown.slot(), 3),
    }

    let handle = bench();
    handle.0.borrow_mut().answers.push_back(Ok(boot_answer([20, 10, 1])));
    handle.0.borrow_mut().ready.push_back(Ok(false));
    assert!(InputModule6ChannelBuilder::new(module(&handle, 3)).build().is_err());
}

#[test]
fn bind_decides_on_the_given_answer() {
    let handle = bench();
    let mut answer = [0u8; 46];
    answer[6..9].copy_from_slice(&[20, 10, 1]);
    let builder = InputModule6ChannelBuilder::new(module(&handle, 3));
    assert!(builder.bind::<u8>(&Ok(answer)).is_ok());
    assert_eq!(events(&handle).len(), 3);

    let handle = bench();
    let builder = InputModule6ChannelBuilder::new(module(&handle, 3));
    assert!(builder.bind::<u8>(&Err(1)).is_err());
    assert!(events(&handle).is_empty());

    let handle = bench();
    answer[8] = 2;
    let builder = InputModule6ChannelBuilder::new(module(&handle, 3));
    assert!(builder.bind::<u8>(&Ok(answer)).is_err());
    assert!(events(&handle).is_empty());
}

#[test]
fn rebuild_after_reconfigure_sends_the_same_configuration() {
    let handle = bench();
    handle.0.borrow_mut().answers.push_back(Ok(boot_answer([20, 10, 1])));
    let builder = InputModule6ChannelBuilder::new(module(&handle, 5)).configure_channel(
        InputModule6ChannelNum::One,
        InputModule6ChannelFunc::Frequency,
        InputModule6ChannelPullUp::PU4_7k,
        InputModule6ChannelPullDown::PD3_3k,
        InputModule6ChannelVoltage::Voltage5V,
    );
    let first = match builder.build() {
        Ok(bound) => bound,
        Err(_) => panic!("build failed"),
    };
    let fresh = events(&handle);
    let (unknown, configuration) = first.reconfigure();
    assert_eq!(unknown.slot(), 5);
    let module = match unknown.module_reset() {
        Ok(module) => module,
        Err(_) => panic!("reset failed"),
    };
    handle.0.borrow_mut().events.clear();
    handle.0.borrow_mut().answers.push_back(Ok(boot_answer([20, 10, 1])));
    let second = InputModule6ChannelBuilder::from_configuration(module, configuration).build();
    let second = match second {
        Ok(bound) => bound,
        Err(_) => panic!("rebuild failed"),
    };
    assert_eq!(events(&handle), fresh);
    assert_eq!(
        second.configuration().channel(InputModule6ChannelNum::One),
        InputModule6ChannelChannel {
            func: InputModule6ChannelFunc::Frequency,
            pu: InputModule6ChannelPullUp::PU4_7k,
            pd: InputModule6ChannelPullDown::PD3_3k,
            volt: InputModule6ChannelVoltage::Voltage5V,
        }
    );
}

#[test]
fn read_channels_decodes_the_scenario_frame() {
    let handle = bench();
    let mut bound = bound_input(&handle, 3);
    handle.0.borrow_mut().answers.push_back(Ok(input_response(2, 11, 3, 1)));
    let values = match bound.read_channels() {
        Ok(values) => values,
        Err(_) => panic!("read failed"),
    };
    assert_eq!(values.channel1, 1);
    assert_eq!(values.channel2, 258);
    assert_eq!(values.channel6, 65536);
    let mut request = [0u8; 60];
    write_header(
        &mut request,
        3,
        55,
        ModuleCommunicationDirection::ToModule,
        11,
        ModuleCommunicationType::Data,
        1,
    );
    assert_eq!(
        events(&handle),
        vec![Event::ReadReady, Event::DelayUs(0), Event::Transfer(request.to_vec())]
    );
}

#[test]
fn read_channels_rejects_a_request_direction() {
    let handle = bench();
    let mut bound = bound_input(&handle, 3);
    handle.0.borrow_mut().answers.push_back(Ok(input_response(1, 11, 3, 1)));
    assert!(matches!(
        bound.read_channels(),
        Err(GoModuleError::CommunicationError(CommunicationError::UnableToSerDe))
    ));
}

#[test]
fn read_channels_rejects_a_wrong_message_index() {
    let handle = bench();
    let mut bound = bound_input(&handle, 3);
    handle.0.borrow_mut().answers.push_back(Ok(input_response(2, 11, 3, 2)));
    handle.0.borrow_mut().answers.push_back(Ok(input_response(2, 22, 3, 1)));
    handle.0.borrow_mut().answers.push_back(Ok(input_response(2, 11, 4, 1)));
    for _ in 0..3 {
        assert!(matches!(
            bound.read_channels(),
            Err(GoModuleError::CommunicationError(CommunicationError::UnableToSerDe))
        ));
    }
}

#[test]
fn read_channels_reports_corruption_before_desynchronisation() {
    let handle = bench();
    let mut bound = bound_input(&handle, 3);
    let mut answer = input_response(2, 11, 3, 2);
    answer[54] = answer[54].wrapping_add(1);
    handle.0.borrow_mut().answers.push_back(Ok(answer));
    handle.0.borrow_mut().answers.push_back(Err(9));
    handle.0.borrow_mut().ready.extend([Ok(true), Ok(true), Ok(false)]);
    assert!(matches!(
        bound.read_channels(),
        Err(GoModuleError::CommunicationError(CommunicationError::ChecksumIncorrect))
    ));
    assert!(matches!(bound.read_channels(), Err(GoModuleError::SPI(9))));
    assert!(matches!(
        bound.read_channels(),
        Err(GoModuleError::CommunicationError(CommunicationError::ModuleUnavailable))
    ));
}

#[test]
fn reset_counter_writes_channel_and_value() {
    let handle = bench();
    let mut bound = bound_input(&handle, 2);
    assert!(bound.reset_counter(InputModule6ChannelNum::Four, 0x0102_0304).is_ok());
    let mut frame = [0u8; 60];
    frame[6] = 4;
    frame[7..11].copy_from_slice(&[4, 3, 2, 1]);
    write_header(
        &mut frame,
        2,
        55,
        ModuleCommunicationDirection::ToModule,
        11,
        ModuleCommunicationType::Data,
        2,
    );
    assert_eq!(
        events(&handle),
        vec![Event::ReadReady, Event::DelayUs(0), Event::Write(frame.to_vec())]
    );
    handle.0.borrow_mut().writes.push_back(Err(3));
    assert!(matches!(
        bound.reset_counter(InputModule6ChannelNum::One, -1),
        Err(GoModuleError::SPI(3))
    ));
}

#[test]
fn escape_outcome_hands_on_answer_or_failure() {
    let mut answer = [0u8; 46];
    answer[6] = 20;
    answer[45] = 9;
    assert!(matches!(escape_outcome::<u8, u8, u8>(Ok(()), answer), Ok(raw) if raw == answer));
    assert!(matches!(
        escape_outcome::<u8, u8, u8>(Err(7), answer),
        Err(GoModuleError::SPI(7))
    ));
}

#[test]
fn line_outcomes_hand_on_level_or_failure() {
    assert!(matches!(level_outcome::<u8, u8, u8>(Ok(true)), Ok(LineState::High)));
    assert!(matches!(level_outcome::<u8, u8, u8>(Ok(false)), Ok(LineState::Low)));
    assert!(matches!(
        level_outcome::<u8, u8, u8>(Err(3)),
        Err(GoModuleError::InterruptPin(3))
    ));
    assert!(reset_outcome::<u8, u8, u8>(Ok(())).is_ok());
    assert!(matches!(
        reset_outcome::<u8, u8, u8>(Err(4)),
        Err(GoModuleError::ResetPin(4))
    ));
}

#[test]
fn delays_pass_through() {
    let handle = bench();
    let mut module = module(&handle, 1);
    module.delay_ms(12);
    module.delay_us(34);
    assert_eq!(events(&handle), vec![Event::DelayMs(12), Event::DelayUs(34)]);
}

#[test]
fn sample_count_is_little_endian() {
    let handle = bench();
    handle.0.borrow_mut().answers.push_back(Ok(boot_answer([20, 10, 1])));
    let builder = InputModule6ChannelBuilder::new(module(&handle, 1)).configure_channel(
        InputModule6ChannelNum::Three,
        InputModule6ChannelFunc::AnalogRaw(0x0102),
        InputModule6ChannelPullUp::PUNone,
        InputModule6ChannelPullDown::PDNone,
        InputModule6ChannelVoltage::Voltage5V,
    );
    assert!(builder.build().is_ok());
    let frame = match events(&handle).last() {
        Some(Event::Write(frame)) => frame.clone(),
        other => panic!("unexpected {:?}", other),
    };
    assert_eq!(frame[8..10], [0xe8, 0x03]);
    assert_eq!(frame[18..24], [1, 0, 0x02, 0x01, 0, 0]);
}

#[test]
fn rebuild_resets_and_binds_again() {
    let handle = bench();
    handle.0.borrow_mut().answers.push_back(Ok(boot_answer([20, 10, 1])));
    let builder = InputModule6ChannelBuilder::new(module(&handle, 5)).configure_supplies(
        InputModule6ChannelSupply::Off,
        InputModule6ChannelSupply::On,
        InputModule6ChannelSupply::Off,
    );
    let first = match builder.build() {
        Ok(bound) => bound,
        Err(_) => panic!("build failed"),
    };
    let fresh = events(&handle);
    handle.0.borrow_mut().events.clear();
    handle.0.borrow_mut().answers.push_back(Ok(boot_answer([20, 10, 1])));
    let second = match first.rebuild() {
        Ok(bound) => bound,
        Err(_) => panic!("rebuild failed"),
    };
    let mut expected = vec![
        Event::Reset(LineState::Low),
        Event::DelayMs(100),
        Event::Reset(LineState::High),
        Event::DelayMs(100),
    ];
    expected.extend(fresh);
    assert_eq!(events(&handle), expected);
    assert_eq!(second.configuration().supply(0), InputModule6ChannelSupply::Off);
    assert_eq!(second.configuration().supply(1), InputModule6ChannelSupply::On);
    assert_eq!(second.configuration().supply(2), InputModule6ChannelSupply::Off);
}

#[test]
fn failed_rebuild_hands_everything_back() {
    let handle = bench();
    let bound = bound_input(&handle, 4);
    handle.0.borrow_mut().resets.push_back(Err(1));
    match bound.rebuild() {
        Ok(_) => panic!("bound without a reset"),
        Err((unknown, configuration)) => {
            assert_eq!(unknown.slot(), 4);
            assert_eq!(configuration.supply(0), InputModule6ChannelSupply::On);
        }
    }
    assert_eq!(events(&handle), vec![Event::Reset(LineState::Low)]);

    let handle = bench();
    let bound = bound_input(&handle, 4);
    handle.0.borrow_mut().answers.push_back(Ok(boot_answer([20, 20, 2])));
    match bound.rebuild() {
        Ok(_) => panic!("bound a foreign module"),
        Err((unknown, _)) => assert_eq!(unknown.slot(), 4),
    }
    assert_eq!(events(&handle).len(), 5);
}
