//! The controller a module sits in: its model, its slots and the devices
//! behind each slot.

use vstd::prelude::*;
use crate::transport::GoModule;

verus! {

/// Hardware revision of a controller.
#[derive(Clone, Copy, PartialEq, Eq, Structural, Debug)]
pub struct HwVersion {
    pub version_major: u8,
    pub version_minor: u8,
}

/// Model of a controller, with its hardware revision.
#[derive(Clone, Copy, PartialEq, Eq, Structural, Debug)]
pub enum ControllerType {
    ModulineIV(HwVersion),
    ModulineIII(HwVersion),
    ModulineII(HwVersion),
    ModulineMini(HwVersion),
    ModulineDisplay(HwVersion),
}

/// One of the eight slots of a controller.
#[derive(Clone, Copy, PartialEq, Eq, Structural, Debug)]
pub enum ControllerSlot {
    Slot1,
    Slot2,
    Slot3,
    Slot4,
    Slot5,
    Slot6,
    Slot7,
    Slot8,
}

impl ControllerSlot {
    /// The number of the slot, counted from one: the first byte of every
    /// frame sent to the module in it.
    pub open spec fn number(self) -> u8 {
        match self {
            ControllerSlot::Slot1 => 1,
            ControllerSlot::Slot2 => 2,
            ControllerSlot::Slot3 => 3,
            ControllerSlot::Slot4 => 4,
            ControllerSlot::Slot5 => 5,
            ControllerSlot::Slot6 => 6,
            ControllerSlot::Slot7 => 7,
            ControllerSlot::Slot8 => 8,
        }
    }

    /// The number of the slot, counted from one.
    pub fn slot_number(self) -> (number: u8)
        ensures
            number == self.number(),
            1 <= number <= 8,
    {
        match self {
            ControllerSlot::Slot1 => 1,
            ControllerSlot::Slot2 => 2,
            ControllerSlot::Slot3 => 3,
            ControllerSlot::Slot4 => 4,
            ControllerSlot::Slot5 => 5,
            ControllerSlot::Slot6 => 6,
            ControllerSlot::Slot7 => 7,
            ControllerSlot::Slot8 => 8,
        }
    }

    /// The slot with the given number, if there is one.
    pub fn from_number(number: u8) -> (slot: Option<ControllerSlot>)
        ensures
            match slot {
                Some(slot) => slot.number() == number,
                None => number < 1 || number > 8,
            },
    {
        match number {
            1 => Some(ControllerSlot::Slot1),
            2 => Some(ControllerSlot::Slot2),
            3 => Some(ControllerSlot::Slot3),
            4 => Some(ControllerSlot::Slot4),
            5 => Some(ControllerSlot::Slot5),
            6 => Some(ControllerSlot::Slot6),
            7 => Some(ControllerSlot::Slot7),
            8 => Some(ControllerSlot::Slot8),
            _ => None,
        }
    }
}

/// The devices behind one slot: the bus and chip select of its byte channel,
/// and the chip and line of its reset and ready lines.
#[derive(Clone, Copy, PartialEq, Eq, Structural, Debug)]
pub struct SlotResources {
    pub slot: ControllerSlot,
    pub spi_bus: u8,
    pub spi_select: u8,
    pub reset_chip: u8,
    pub reset_line: u32,
    pub interrupt_chip: u8,
    pub interrupt_line: u32,
}

/// How the byte channel of a slot is set up.
#[derive(Clone, Copy, PartialEq, Eq, Structural, Debug)]
pub struct SpiSettings {
    pub bits_per_word: u8,
    pub max_speed_hz: u32,
    pub mode: u8,
}

/// The setup every module expects of its byte channel: words of eight bits,
/// at most 2 MHz, clock idle low and data sampled on the leading edge.
pub fn module_spi_settings() -> (settings: SpiSettings)
    ensures
        settings == (SpiSettings { bits_per_word: 8, max_speed_hz: 2_000_000, mode: 0 }),
{
    SpiSettings { bits_per_word: 8, max_speed_hz: 2_000_000, mode: 0 }
}

/// The devices behind `slot` of a controller of the given model, for the
/// models whose wiring is known.
pub open spec fn resources_of(controller_type: ControllerType, slot: ControllerSlot) -> Option<
    SlotResources,
> {
    match controller_type {
        ControllerType::ModulineIV(_) => Some(
            match slot {
                ControllerSlot::Slot1 => SlotResources {
                    slot,
                    spi_bus: 1,
                    spi_select: 0,
                    reset_chip: 0,
                    reset_line: 7,
                    interrupt_chip: 0,
                    interrupt_line: 6,
                },
                ControllerSlot::Slot2 => SlotResources {
                    slot,
                    spi_bus: 1,
                    spi_select: 1,
                    reset_chip: 2,
                    reset_line: 10,
                    interrupt_chip: 4,
                    interrupt_line: 20,
                },
                ControllerSlot::Slot3 => SlotResources {
                    slot,
                    spi_bus: 2,
                    spi_select: 0,
                    reset_chip: 0,
                    reset_line: 4,
                    interrupt_chip: 0,
                    interrupt_line: 7,
                },
                ControllerSlot::Slot4 => SlotResources {
                    slot,
                    spi_bus: 2,
                    spi_select: 1,
                    reset_chip: 0,
                    reset_line: 2,
                    interrupt_chip: 4,
                    interrupt_line: 21,
                },
                ControllerSlot::Slot5 => SlotResources {
                    slot,
                    spi_bus: 2,
                    spi_select: 2,
                    reset_chip: 3,
                    reset_line: 24,
                    interrupt_chip: 4,
                    interrupt_line: 1,
                },
                ControllerSlot::Slot6 => SlotResources {
                    slot,
                    spi_bus: 2,
                    spi_select: 3,
                    reset_chip: 3,
                    reset_line: 27,
                    interrupt_chip: 3,
                    interrupt_line: 26,
                },
                ControllerSlot::Slot7 => SlotResources {
                    slot,
                    spi_bus: 0,
                    spi_select: 0,
                    reset_chip: 2,
                    reset_line: 24,
                    interrupt_chip: 2,
                    interrupt_line: 19,
                },
                ControllerSlot::Slot8 => SlotResources {
                    slot,
                    spi_bus: 0,
                    spi_select: 1,
                    reset_chip: 2,
                    reset_line: 20,
                    interrupt_chip: 2,
                    interrupt_line: 22,
                },
            },
        ),
        _ => None,
    }
}

/// Looks up the devices behind `slot` of a controller of the given model.
/// Only the wiring of the Moduline IV is known.
pub fn slot_resources(controller_type: ControllerType, slot: ControllerSlot) -> (resources: Option<
    SlotResources,
>)
    ensures
        resources == resources_of(controller_type, slot),
{
    match controller_type {
        ControllerType::ModulineIV(_) => {
            let (spi_bus, spi_select, reset_chip, reset_line, interrupt_chip, interrupt_line): (
                u8,
                u8,
                u8,
                u32,
                u8,
                u32,
            ) = match slot {
                ControllerSlot::Slot1 => (1, 0, 0, 7, 0, 6),
                ControllerSlot::Slot2 => (1, 1, 2, 10, 4, 20),
                ControllerSlot::Slot3 => (2, 0, 0, 4, 0, 7),
                ControllerSlot::Slot4 => (2, 1, 0, 2, 4, 21),
                ControllerSlot::Slot5 => (2, 2, 3, 24, 4, 1),
                ControllerSlot::Slot6 => (2, 3, 3, 27, 3, 26),
                ControllerSlot::Slot7 => (0, 0, 2, 24, 2, 19),
                ControllerSlot::Slot8 => (0, 1, 2, 20, 2, 22),
            };
            Some(
                SlotResources {
                    slot,
                    spi_bus,
                    spi_select,
                    reset_chip,
                    reset_line,
                    interrupt_chip,
                    interrupt_line,
                },
            )
        },
        _ => None,
    }
}

impl<SPI, ResetPin, InterruptPin, Delay> GoModule<SPI, ResetPin, InterruptPin, Delay> {
    /// The devices behind each of the eight slots of a controller of the
    /// given model, slot one first, for the models whose wiring is known.
    pub fn get_modules(controller_type: ControllerType) -> (modules: Option<[SlotResources; 8]>)
        ensures
            match modules {
                Some(table) => forall|slot: ControllerSlot|
                    resources_of(controller_type, slot) == Some(
                        #[trigger] table@[slot.number() - 1],
                    ),
                None => forall|slot: ControllerSlot|
                    resources_of(controller_type, slot) == None::<SlotResources>,
            },
    {
        let s1 = slot_resources(controller_type, ControllerSlot::Slot1);
        let s2 = slot_resources(controller_type, ControllerSlot::Slot2);
        let s3 = slot_resources(controller_type, ControllerSlot::Slot3);
        let s4 = slot_resources(controller_type, ControllerSlot::Slot4);
        let s5 = slot_resources(controller_type, ControllerSlot::Slot5);
        let s6 = slot_resources(controller_type, ControllerSlot::Slot6);
        let s7 = slot_resources(controller_type, ControllerSlot::Slot7);
        let s8 = slot_resources(controller_type, ControllerSlot::Slot8);
        match (s1, s2, s3, s4, s5, s6, s7, s8) {
            (Some(a), Some(b), Some(c), Some(d), Some(e), Some(f), Some(g), Some(h)) => Some(
                [a, b, c, d, e, f, g, h],
            ),
            _ => None,
        }
    }
}

} // verus!
