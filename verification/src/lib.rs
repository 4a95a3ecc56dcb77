//! Driver core for hot-pluggable I/O modules on a modular controller.
//!
//! A mainboard exposes numbered slots, each holding a module reached over a
//! duplex byte channel, a reset line and a ready line. This crate holds the
//! frame codec, the transport that performs one framed exchange, the
//! typestate lifecycle that keeps an unidentified module from being talked
//! to, and the drivers of the six channel input and output modules.

pub mod error;
pub mod frame;
pub mod hardware;
pub mod input_6_channel;
pub mod link;
pub mod mainboard;
pub mod output_6_channel;
pub mod trace;
pub mod transport;
pub mod wire;

pub use error::{CommunicationError, GoModuleError, ModuleSetupError};
pub use frame::{
    check_frame, check_header, module_checksum, validate_response, write_header,
    ModuleCommunicationDirection, ModuleCommunicationType,
};
pub use link::{DelaySource, DuplexLink, LineState, ReadyLine, ResetLine};
pub use mainboard::{
    module_spi_settings, slot_resources, ControllerSlot, ControllerType, HwVersion, SlotResources,
    SpiSettings,
};
pub use transport::{GoModule, GoModuleUnknown, ReadyPolicy, BOOTMESSAGELENGTH};
