//! The bootloader as a state machine.
//!
//! The firmware owns the hardware and the scheduler; the machine owns every
//! decision. In each [`Phase`] one [`Action`] is pending. The firmware
//! performs it and reports the outcome as an [`Event`]; the machine moves to
//! the next phase and names the next action. Four phases are final: they
//! hand the processor to the application, reset it, or stop for good.

use crate::flash::FlashWindow;
use crate::wire::{announced_size, spec_announced_size, Message, Packet};
use vstd::prelude::*;

verus! {

/// Value of the persistent flag that makes the next boot skip interactive
/// mode and start the application at once. Every other value means a normal
/// boot.
pub const BOOT_SENTINEL: u32 = 0xB001_10AD;

/// Value that the flag takes once the sentinel has been seen.
pub const BOOT_NORMAL: u32 = 0;

/// How long the device waits for a host before it starts the application,
/// in milliseconds.
pub const ARBITRATION_MILLIS: u64 = 5000;

/// Pause between bringing the peripherals up and listening for a host, in
/// milliseconds.
pub const SETTLE_MILLIS: u64 = 300;

/// Pause between the last acknowledgement and the reset that ends an
/// upload, in milliseconds.
pub const LINGER_MILLIS: u64 = 1000;

/// Half-period of the indicator while no host has been heard, in
/// milliseconds. The indicator starts with it.
pub const RATE_IDLE_MILLIS: u64 = 50;

/// Half-period of the indicator while a host is served, in milliseconds.
pub const RATE_TRANSFER_MILLIS: u64 = 25;

/// Half-period of the indicator when no host came and the device is about
/// to restart into the application, in milliseconds.
pub const RATE_REBOOT_MILLIS: u64 = 100;

/// What the firmware is asked to do next.
#[derive(Clone, Copy, Debug, PartialEq, Eq)]
pub enum Action {
    /// Read the persistent flag. Answered by [`Event::Flag`].
    ReadFlag,
    /// Store a value in the persistent flag.
    WriteFlag(u32),
    /// Read the first two words of the application image, which lies at
    /// `address`. Answered by [`Event::Words`].
    ReadVectors { address: u32 },
    /// Final. Start the application: point the vector table base at
    /// `vector_table`, load the main stack pointer with `stack_pointer`, and
    /// jump to `entry`. Nothing returns, and whatever else was running is
    /// abandoned.
    Handoff { vector_table: u32, stack_pointer: u32, entry: u32 },
    /// Initialise the board, start the indicator at
    /// [`RATE_IDLE_MILLIS`] and the USB device, open the flash.
    BringUp,
    /// Do nothing for so many milliseconds.
    Sleep { millis: u64 },
    /// Start the clock that bounds the wait for a host. While the
    /// bootloader is probing for one, see [`Bootloader::probing`], the
    /// pending action races against this clock; where the clock wins, the
    /// action is abandoned and answered by [`Event::Timeout`].
    ArmDeadline { millis: u64 },
    /// Set the half-period of the indicator, in milliseconds.
    SetIndicatorRate { millis: u64 },
    /// Wait until the host has opened the channel.
    WaitConnection,
    /// Read one packet into a zeroed buffer. Answered by [`Event::Packet`]
    /// or [`Event::Failed`].
    ReadPacket,
    /// Send one packet. Answered by [`Event::Done`] or [`Event::Failed`].
    Send(Message),
    /// Erase the flash from offset `from` up to offset `to`. Answered by
    /// [`Event::Done`] or [`Event::Failed`].
    Erase { from: u32, to: u32 },
    /// Program the 64 bytes of `data` at `offset`. Answered by
    /// [`Event::Done`] or [`Event::Failed`].
    WriteBlock { offset: u32, data: Packet },
    /// Final. Reset the processor.
    Reset,
    /// Final. The flash refused a block: idle until power is removed.
    Halt,
    /// Final. The session cannot go on and nothing recovers it.
    Abort,
}

/// How the pending action ended.
#[derive(Clone, Copy, Debug, PartialEq, Eq)]
pub enum Event {
    /// The persistent flag was read and held this value.
    Flag(u32),
    /// The action was carried out.
    Done,
    /// The two words were read: the first held `.0`, the second `.1`.
    Words(u32, u32),
    /// A packet was read into this buffer.
    Packet(Packet),
    /// The transport or the flash reported an error.
    Failed,
    /// The deadline passed before the action ended.
    Timeout,
}

/// Where the bootloader stands. Each phase is named after the action that
/// is pending in it, see [`pending`].
#[derive(Clone, Copy, Debug, PartialEq, Eq)]
pub enum Phase {
    /// Boot selector: the flag is being read.
    ReadFlag,
    /// Boot selector: the sentinel was seen and is being cleared.
    ClearFlag,
    /// Hand-off: the head of the vector table of the image is being read.
    ReadVectors,
    /// Final: the application was started with this stack pointer, at this
    /// entry point.
    Handoff { stack_pointer: u32, entry: u32 },
    /// Peripherals, indicator, USB and flash are being set up.
    BringUp,
    /// The pause after setting up.
    Settle,
    /// Arbiter: the deadline is being started.
    ArmDeadline,
    /// Arbiter: waiting for the host to open the channel.
    ProbeConnection,
    /// Arbiter: waiting for any packet as a sign of life.
    ProbePacket,
    /// No host came: the indicator is being slowed down.
    IndicateReboot,
    /// The flag is being set to the sentinel ahead of a reset.
    MarkReboot,
    /// Final: the processor was reset.
    Reset,
    /// A host is there: the indicator is being sped up.
    IndicateTransfer,
    /// Waiting for the channel before the greeting.
    AnnounceConnection,
    /// The greeting is being sent.
    Announce,
    /// Waiting for the channel before the size packet.
    SizeConnection,
    /// Waiting for the packet that announces the image size.
    SizePacket,
    /// The window is being erased for an image of `size` bytes.
    Erase { size: u32 },
    /// The host is being told that the image was accepted.
    Accept { size: u32 },
    /// The host is being told that the image is too big.
    Reject { size: u32 },
    /// Waiting for the channel before block `index`.
    BlockConnection { size: u32, index: u32 },
    /// Waiting for the packet with block `index`.
    BlockPacket { size: u32, index: u32 },
    /// Block `index` is being programmed at `offset`.
    Program { size: u32, index: u32, offset: u32, data: Packet },
    /// Waiting for the channel before the echo of block `index`.
    EchoConnection { size: u32, index: u32, data: Packet },
    /// Block `index` is being echoed.
    Echo { size: u32, index: u32, data: Packet },
    /// The echo of block `index` is being closed.
    Terminate { size: u32, index: u32 },
    /// The pause after the last block.
    Linger,
    /// Final: a block could not be programmed.
    Halt,
    /// Final: the session was given up.
    Abort,
}

/// Offset at which block `index` of an image is programmed.
pub open spec fn block_offset(window: FlashWindow, index: u32) -> int {
    window.start() + 64 * index
}

/// Whether block `index` ends within the range of 32-bit offsets. A block
/// that does not cannot be handed to the flash.
pub open spec fn block_fits(window: FlashWindow, index: u32) -> bool {
    block_offset(window, index) + 64 <= u32::MAX
}

/// Whether `size` bytes fit the window.
pub open spec fn image_fits(window: FlashWindow, size: u32) -> bool {
    size <= window.spec_capacity()
}

/// Index of the last block of an image of `size` bytes.
pub open spec fn last_block(size: u32) -> int {
    (size / 64) as int
}

/// The action that is pending in `phase`.
pub open spec fn pending(window: FlashWindow, phase: Phase) -> Action {
    match phase {
        Phase::ReadFlag => Action::ReadFlag,
        Phase::ClearFlag => Action::WriteFlag(BOOT_NORMAL),
        Phase::ReadVectors => Action::ReadVectors { address: window.spec_image_address() as u32 },
        Phase::Handoff { stack_pointer, entry } => Action::Handoff {
            vector_table: window.spec_image_address() as u32,
            stack_pointer,
            entry,
        },
        Phase::BringUp => Action::BringUp,
        Phase::Settle => Action::Sleep { millis: SETTLE_MILLIS },
        Phase::ArmDeadline => Action::ArmDeadline { millis: ARBITRATION_MILLIS },
        Phase::ProbeConnection => Action::WaitConnection,
        Phase::ProbePacket => Action::ReadPacket,
        Phase::IndicateReboot => Action::SetIndicatorRate { millis: RATE_REBOOT_MILLIS },
        Phase::MarkReboot => Action::WriteFlag(BOOT_SENTINEL),
        Phase::Reset => Action::Reset,
        Phase::IndicateTransfer => Action::SetIndicatorRate { millis: RATE_TRANSFER_MILLIS },
        Phase::AnnounceConnection => Action::WaitConnection,
        Phase::Announce => Action::Send(Message::Connected),
        Phase::SizeConnection => Action::WaitConnection,
        Phase::SizePacket => Action::ReadPacket,
        Phase::Erase { .. } => Action::Erase { from: window.start(), to: window.end() },
        Phase::Accept { .. } => Action::Send(Message::Erased),
        Phase::Reject { .. } => Action::Send(Message::TooBig),
        Phase::BlockConnection { .. } => Action::WaitConnection,
        Phase::BlockPacket { .. } => Action::ReadPacket,
        Phase::Program { offset, data, .. } => Action::WriteBlock { offset, data },
        Phase::EchoConnection { .. } => Action::WaitConnection,
        Phase::Echo { data, .. } => Action::Send(Message::Echo(data)),
        Phase::Terminate { .. } => Action::Send(Message::Terminator),
        Phase::Linger => Action::Sleep { millis: LINGER_MILLIS },
        Phase::Halt => Action::Halt,
        Phase::Abort => Action::Abort,
    }
}

/// Whether nothing follows `phase`.
pub open spec fn is_final(phase: Phase) -> bool {
    phase is Handoff || phase is Reset || phase is Halt || phase is Abort
}

/// The phase that follows `phase` when its action ends with `event`.
///
/// A final phase stays. Elsewhere an outcome that the pending action cannot
/// have, and a failure of the transport or of the erase, give up the
/// session; only a failed read while probing for a host is tried again.
/// The session is also given up where the end of a block lies beyond the
/// 32-bit offsets.
///
/// At the hand-off the first word of the image is the initial stack pointer
/// and the second its entry point; the vector table is the image itself.
pub open spec fn advance(window: FlashWindow, phase: Phase, event: Event) -> Phase {
    match (phase, event) {
        (Phase::Handoff { .. }, _) => phase,
        (Phase::Reset, _) => Phase::Reset,
        (Phase::Halt, _) => Phase::Halt,
        (Phase::ReadFlag, Event::Flag(value)) => if value == BOOT_SENTINEL {
            Phase::ClearFlag
        } else {
            Phase::BringUp
        },
        (Phase::ClearFlag, Event::Done) => Phase::ReadVectors,
        (Phase::ReadVectors, Event::Words(first, second)) => Phase::Handoff {
            stack_pointer: first,
            entry: second,
        },
        (Phase::BringUp, Event::Done) => Phase::Settle,
        (Phase::Settle, Event::Done) => Phase::ArmDeadline,
        (Phase::ArmDeadline, Event::Done) => Phase::ProbeConnection,
        (Phase::ProbeConnection, Event::Done) => Phase::ProbePacket,
        (Phase::ProbeConnection, Event::Timeout) => Phase::IndicateReboot,
        (Phase::ProbePacket, Event::Packet(_)) => Phase::IndicateTransfer,
        (Phase::ProbePacket, Event::Failed) => Phase::ProbeConnection,
        (Phase::ProbePacket, Event::Timeout) => Phase::IndicateReboot,
        (Phase::IndicateReboot, Event::Done) => Phase::MarkReboot,
        (Phase::MarkReboot, Event::Done) => Phase::Reset,
        (Phase::IndicateTransfer, Event::Done) => Phase::AnnounceConnection,
        (Phase::AnnounceConnection, Event::Done) => Phase::Announce,
        (Phase::Announce, Event::Done) => Phase::SizeConnection,
        (Phase::SizeConnection, Event::Done) => Phase::SizePacket,
        (Phase::SizePacket, Event::Packet(packet)) => {
            let size = spec_announced_size(packet@) as u32;
            if image_fits(window, size) {
                Phase::Erase { size }
            } else {
                Phase::Reject { size }
            }
        },
        (Phase::Erase { size }, Event::Done) => Phase::Accept { size },
        (Phase::Accept { size }, Event::Done) => Phase::BlockConnection { size, index: 0 },
        (Phase::Reject { size }, Event::Done) => Phase::BlockConnection { size, index: 0 },
        (Phase::BlockConnection { size, index }, Event::Done) => Phase::BlockPacket { size, index },
        (Phase::BlockPacket { size, index }, Event::Packet(data)) => if block_fits(window, index) {
            Phase::Program { size, index, offset: block_offset(window, index) as u32, data }
        } else {
            Phase::Abort
        },
        (Phase::Program { size, index, data, .. }, Event::Done) => Phase::EchoConnection {
            size,
            index,
            data,
        },
        (Phase::Program { .. }, Event::Failed) => Phase::Halt,
        (Phase::EchoConnection { size, index, data }, Event::Done) => Phase::Echo {
            size,
            index,
            data,
        },
        (Phase::Echo { size, index, .. }, Event::Done) => Phase::Terminate { size, index },
        (Phase::Terminate { size, index }, Event::Done) => if index < last_block(size) {
            Phase::BlockConnection { size, index: (index + 1) as u32 }
        } else {
            Phase::Linger
        },
        (Phase::Linger, Event::Done) => Phase::MarkReboot,
        _ => Phase::Abort,
    }
}

/// A session that has ended stays as it is, whatever is reported.
pub proof fn lemma_final_phases_stay(window: FlashWindow, phase: Phase, event: Event)
    requires
        is_final(phase),
    ensures
        advance(window, phase, event) == phase,
        pending(window, advance(window, phase, event)) == pending(window, phase),
{
}

/// The bootloader between two actions: the window it programs and the phase
/// it is in.
#[derive(Clone, Copy, Debug, PartialEq, Eq)]
pub struct Bootloader {
    /// Where the application image lives.
    pub window: FlashWindow,
    /// What the bootloader is waiting for.
    pub phase: Phase,
}

impl Bootloader {
    /// The bootloader right after a reset: nothing is set up, and the first
    /// thing to do is to read the persistent flag.
    pub fn new(window: FlashWindow) -> (boot: Self)
        ensures
            boot.window == window,
            boot.phase == Phase::ReadFlag,
    {
        Bootloader { window, phase: Phase::ReadFlag }
    }

    /// The state that follows `self` on `event`.
    pub open spec fn next(self, event: Event) -> Self {
        Bootloader { window: self.window, phase: advance(self.window, self.phase, event) }
    }

    /// The action that is pending in this state.
    pub open spec fn spec_action(&self) -> Action {
        pending(self.window, self.phase)
    }

    /// Whether the session has ended.
    pub open spec fn spec_finished(&self) -> bool {
        is_final(self.phase)
    }

    /// Whether the device is waiting for a first sign of a host.
    pub open spec fn spec_probing(&self) -> bool {
        self.phase is ProbeConnection || self.phase is ProbePacket
    }

    /// The action that the firmware has to perform now.
    #[verifier::when_used_as_spec(spec_action)]
    pub fn action(&self) -> (action: Action)
        ensures
            action == self.spec_action(),
    {
        match self.phase {
            Phase::ReadFlag => Action::ReadFlag,
            Phase::ClearFlag => Action::WriteFlag(BOOT_NORMAL),
            Phase::ReadVectors => Action::ReadVectors { address: self.window.image_address() },
            Phase::Handoff { stack_pointer, entry } => Action::Handoff {
                vector_table: self.window.image_address(),
                stack_pointer,
                entry,
            },
            Phase::BringUp => Action::BringUp,
            Phase::Settle => Action::Sleep { millis: SETTLE_MILLIS },
            Phase::ArmDeadline => Action::ArmDeadline { millis: ARBITRATION_MILLIS },
            Phase::ProbeConnection => Action::WaitConnection,
            Phase::ProbePacket => Action::ReadPacket,
            Phase::IndicateReboot => Action::SetIndicatorRate { millis: RATE_REBOOT_MILLIS },
            Phase::MarkReboot => Action::WriteFlag(BOOT_SENTINEL),
            Phase::Reset => Action::Reset,
            Phase::IndicateTransfer => Action::SetIndicatorRate { millis: RATE_TRANSFER_MILLIS },
            Phase::AnnounceConnection => Action::WaitConnection,
            Phase::Announce => Action::Send(Message::Connected),
            Phase::SizeConnection => Action::WaitConnection,
            Phase::SizePacket => Action::ReadPacket,
            Phase::Erase { .. } => Action::Erase {
                from: self.window.start(),
                to: self.window.end(),
            },
            Phase::Accept { .. } => Action::Send(Message::Erased),
            Phase::Reject { .. } => Action::Send(Message::TooBig),
            Phase::BlockConnection { .. } => Action::WaitConnection,
            Phase::BlockPacket { .. } => Action::ReadPacket,
            Phase::Program { offset, data, .. } => Action::WriteBlock { offset, data },
            Phase::EchoConnection { .. } => Action::WaitConnection,
            Phase::Echo { data, .. } => Action::Send(Message::Echo(data)),
            Phase::Terminate { .. } => Action::Send(Message::Terminator),
            Phase::Linger => Action::Sleep { millis: LINGER_MILLIS },
            Phase::Halt => Action::Halt,
            Phase::Abort => Action::Abort,
        }
    }

    /// Whether the session has ended: the pending action is final and no
    /// event changes the state any more.
    #[verifier::when_used_as_spec(spec_finished)]
    pub fn finished(&self) -> (finished: bool)
        ensures
            finished == self.spec_finished(),
    {
        match self.phase {
            Phase::Handoff { .. } | Phase::Reset | Phase::Halt | Phase::Abort => true,
            _ => false,
        }
    }

    /// Whether the pending action races against the deadline: the device
    /// is waiting for a first sign of a host. In every other phase the
    /// deadline counts for nothing, and [`Event::Timeout`] gives up the
    /// session.
    #[verifier::when_used_as_spec(spec_probing)]
    pub fn probing(&self) -> (probing: bool)
        ensures
            probing == self.spec_probing(),
    {
        match self.phase {
            Phase::ProbeConnection | Phase::ProbePacket => true,
            _ => false,
        }
    }

    /// Takes the outcome of the pending action and returns the action to
    /// perform next.
    pub fn step(&mut self, event: Event) -> (action: Action)
        ensures
            *final(self) == old(self).next(event),
            action == final(self).spec_action(),
    {
        let next = transition(&self.window, self.phase, event);
        self.phase = next;
        self.action()
    }
}

/// The phase that follows `phase` when its action ends with `event`.
pub fn transition(window: &FlashWindow, phase: Phase, event: Event) -> (next: Phase)
    ensures
        next == advance(*window, phase, event),
{
    match (phase, event) {
        (Phase::Handoff { .. }, _) => phase,
        (Phase::Reset, _) => Phase::Reset,
        (Phase::Halt, _) => Phase::Halt,
        (Phase::ReadFlag, Event::Flag(value)) => {
            if value == BOOT_SENTINEL {
                Phase::ClearFlag
            } else {
                Phase::BringUp
            }
        },
        (Phase::ClearFlag, Event::Done) => Phase::ReadVectors,
        (Phase::ReadVectors, Event::Words(first, second)) => Phase::Handoff {
            stack_pointer: first,
            entry: second,
        },
        (Phase::BringUp, Event::Done) => Phase::Settle,
        (Phase::Settle, Event::Done) => Phase::ArmDeadline,
        (Phase::ArmDeadline, Event::Done) => Phase::ProbeConnection,
        (Phase::ProbeConnection, Event::Done) => Phase::ProbePacket,
        (Phase::ProbeConnection, Event::Timeout) => Phase::IndicateReboot,
        (Phase::ProbePacket, Event::Packet(_)) => Phase::IndicateTransfer,
        (Phase::ProbePacket, Event::Failed) => Phase::ProbeConnection,
        (Phase::ProbePacket, Event::Timeout) => Phase::IndicateReboot,
        (Phase::IndicateReboot, Event::Done) => Phase::MarkReboot,
        (Phase::MarkReboot, Event::Done) => Phase::Reset,
        (Phase::IndicateTransfer, Event::Done) => Phase::AnnounceConnection,
        (Phase::AnnounceConnection, Event::Done) => Phase::Announce,
        (Phase::Announce, Event::Done) => Phase::SizeConnection,
        (Phase::SizeConnection, Event::Done) => Phase::SizePacket,
        (Phase::SizePacket, Event::Packet(packet)) => {
            let size = announced_size(&packet);
            if size <= window.capacity() {
                Phase::Erase { size }
            } else {
                Phase::Reject { size }
            }
        },
        (Phase::Erase { size }, Event::Done) => Phase::Accept { size },
        (Phase::Accept { size }, Event::Done) => Phase::BlockConnection { size, index: 0 },
        (Phase::Reject { size }, Event::Done) => Phase::BlockConnection { size, index: 0 },
        (Phase::BlockConnection { size, index }, Event::Done) => Phase::BlockPacket { size, index },
        (Phase::BlockPacket { size, index }, Event::Packet(data)) => {
            let offset: u64 = window.start() as u64 + 64 * (index as u64);
            if offset + 64 <= u32::MAX as u64 {
                Phase::Program { size, index, offset: offset as u32, data }
            } else {
                Phase::Abort
            }
        },
        (Phase::Program { size, index, data, .. }, Event::Done) => Phase::EchoConnection {
            size,
            index,
            data,
        },
        (Phase::Program { .. }, Event::Failed) => Phase::Halt,
        (Phase::EchoConnection { size, index, data }, Event::Done) => Phase::Echo {
            size,
            index,
            data,
        },
        (Phase::Echo { size, index, .. }, Event::Done) => Phase::Terminate { size, index },
        (Phase::Terminate { size, index }, Event::Done) => {
            if index < size / 64 {
                Phase::BlockConnection { size, index: index + 1 }
            } else {
                Phase::Linger
            }
        },
        (Phase::Linger, Event::Done) => Phase::MarkReboot,
        _ => Phase::Abort,
    }
}

} // verus!
