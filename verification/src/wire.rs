//! What travels over the serial channel: packets of 64 bytes from the host,
//! short fixed replies and echoes from the device.

use crate::buffer::AlignedBuffer;
use vstd::prelude::*;
use vstd::slice::slice_to_vec;

verus! {

/// Length in bytes of a packet, and of the block of image data that one
/// packet carries.
pub const PACKET_SIZE: usize = 64;

/// One packet as it was read from the channel, padded with zeros where the
/// host sent fewer than [`PACKET_SIZE`] bytes.
pub type Packet = AlignedBuffer<64>;

/// What the device sends to the host.
#[derive(Clone, Copy, Debug, PartialEq, Eq)]
pub enum Message {
    /// The device has entered interactive mode.
    Connected,
    /// The announced image fits the window, which has been erased.
    Erased,
    /// The announced image does not fit the window.
    TooBig,
    /// A block came in and was programmed: the same bytes go back.
    Echo(Packet),
    /// The empty packet that closes the acknowledgement of a block.
    Terminator,
}

impl Message {
    /// The bytes of the message on the wire. The three replies are the ASCII
    /// texts `connected`, `erased` and `to_big`.
    pub open spec fn wire(self) -> Seq<u8> {
        match self {
            Message::Connected => seq![0x63u8, 0x6f, 0x6e, 0x6e, 0x65, 0x63, 0x74, 0x65, 0x64],
            Message::Erased => seq![0x65u8, 0x72, 0x61, 0x73, 0x65, 0x64],
            Message::TooBig => seq![0x74u8, 0x6f, 0x5f, 0x62, 0x69, 0x67],
            Message::Echo(packet) => packet@,
            Message::Terminator => Seq::empty(),
        }
    }

    /// The bytes to hand to the transport.
    pub fn bytes(&self) -> (bytes: Vec<u8>)
        ensures
            bytes@ == self.wire(),
    {
        match self {
            Message::Connected => vec![0x63u8, 0x6f, 0x6e, 0x6e, 0x65, 0x63, 0x74, 0x65, 0x64],
            Message::Erased => vec![0x65u8, 0x72, 0x61, 0x73, 0x65, 0x64],
            Message::TooBig => vec![0x74u8, 0x6f, 0x5f, 0x62, 0x69, 0x67],
            Message::Echo(packet) => slice_to_vec(packet.as_ref()),
            Message::Terminator => Vec::new(),
        }
    }
}

/// The image size that a packet announces: its first four bytes read as one
/// unsigned number, most significant byte first. The remaining bytes do not
/// count.
pub open spec fn spec_announced_size(packet: Seq<u8>) -> int {
    packet[0] * 0x100_0000 + packet[1] * 0x1_0000 + packet[2] * 0x100 + packet[3]
}

/// The image size, in bytes, that the host announces in `packet`.
pub fn announced_size(packet: &Packet) -> (size: u32)
    ensures
        size == spec_announced_size(packet@),
{
    let b0: u32 = packet.0[0] as u32;
    let b1: u32 = packet.0[1] as u32;
    let b2: u32 = packet.0[2] as u32;
    let b3: u32 = packet.0[3] as u32;
    b0 * 0x100_0000 + b1 * 0x1_0000 + b2 * 0x100 + b3
}

/// Number of blocks that the device takes for an image of `size` bytes: one
/// for every full 64 bytes, and always one more. An empty image still takes
/// one block.
pub open spec fn spec_block_count(size: u32) -> int {
    size / 64 + 1
}

/// Number of blocks that the device takes for an image of `size` bytes.
pub fn block_count(size: u32) -> (count: u32)
    ensures
        count == spec_block_count(size),
        count >= 1,
{
    size / 64 + 1
}

} // verus!
