//! Control logic of a USB firmware-update bootloader for a microcontroller.
//!
//! The bootloader runs first after every reset. It either hands control to
//! the application already in flash, or offers a host a serial channel over
//! which a new application image is uploaded and programmed.
//!
//! This crate holds the decisions and none of the hardware access. The
//! firmware performs one [`Action`] at a time and reports its outcome as an
//! [`Event`]; [`Bootloader::step`] answers with the next action. Every
//! function here is verified against the contract written on it.
//!
//! - [`machine`]: the phases of the bootloader, the action that is pending
//!   in each, and the step from one to the next.
//! - [`session`]: runs of the machine over many events, and what holds of
//!   every run.
//! - [`arbiter`]: what holds of the start: direct hand-over, timeout, host.
//! - [`upload`]: what holds of an upload from the greeting to the reset.
//! - [`wire`]: the messages and numbers of the serial protocol.
//! - [`flash`]: the window of flash that belongs to the application, and
//!   [`f411ceu6`], [`ifrc_iflight_f722_blitz`]: the windows of two boards.
//! - [`indicator`]: the blinking of the status output.
//! - [`usb`]: how the device presents itself on the bus.
//! - [`buffer`]: the packet buffer.

pub mod arbiter;
pub mod buffer;
pub mod f411ceu6;
pub mod flash;
pub mod ifrc_iflight_f722_blitz;
pub mod indicator;
pub mod machine;
pub mod session;
pub mod upload;
pub mod usb;
pub mod wire;

pub use buffer::AlignedBuffer;
pub use flash::{FlashWindow, FLASH_BASE};
pub use indicator::{HalfPeriod, Indicator, Level};
pub use machine::{Action, Bootloader, Event, Phase, BOOT_SENTINEL};
pub use wire::{announced_size, block_count, Message, Packet, PACKET_SIZE};
