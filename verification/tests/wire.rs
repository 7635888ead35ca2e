use iboot::indicator::{HalfPeriod, Indicator, Level};
use iboot::usb::identity;
use iboot::wire::{announced_size, block_count, Message, PACKET_SIZE};
use iboot::AlignedBuffer;

#[test]
fn replies_are_ascii_texts() {
    assert_eq!(Message::Connected.bytes(), b"connected".to_vec());
    assert_eq!(Message::Connected.bytes().len(), 9);
    assert_eq!(Message::Erased.bytes(), b"erased".to_vec());
    assert_eq!(Message::Erased.bytes().len(), 6);
    assert_eq!(Message::TooBig.bytes(), b"to_big".to_vec());
    assert_eq!(Message::TooBig.bytes().len(), 6);
    assert_eq!(Message::Terminator.bytes(), Vec::<u8>::new());
}

#[test]
fn echo_carries_the_block_unchanged() {
    let mut bytes = [0u8; 64];
    for (at, byte) in bytes.iter_mut().enumerate() {
        *byte = 255 - at as u8;
    }
    let echo = Message::Echo(AlignedBuffer(bytes)).bytes();
    assert_eq!(echo.len(), PACKET_SIZE);
    assert_eq!(echo, bytes.to_vec());
    assert_eq!(echo[0], 255);
    assert_eq!(echo[63], 192);
}

#[test]
fn size_is_big_endian() {
    let mut bytes = [0u8; 64];
    assert_eq!(announced_size(&AlignedBuffer(bytes)), 0);
    bytes[..4].copy_from_slice(&[0x12, 0x34, 0x56, 0x78]);
    assert_eq!(announced_size(&AlignedBuffer(bytes)), 0x12345678);
    bytes[..4].copy_from_slice(&[0, 0, 0, 128]);
    assert_eq!(announced_size(&AlignedBuffer(bytes)), 128);
    bytes[..4].copy_from_slice(&[1, 0, 0, 0]);
    assert_eq!(announced_size(&AlignedBuffer(bytes)), 16777216);
    bytes[..4].copy_from_slice(&[0xFF, 0xFF, 0xFF, 0xFF]);
    assert_eq!(announced_size(&AlignedBuffer(bytes)), u32::MAX);
    bytes[..4].copy_from_slice(&[0, 0, 0, 0]);
    bytes[4] = 0xFF;
    bytes[63] = 0xFF;
    assert_eq!(announced_size(&AlignedBuffer(bytes)), 0);
    for size in [0u32, 1, 255, 256, 65535, 65536, 458752, 0xDEADBEEF] {
        let mut bytes = [0u8; 64];
        bytes[..4].copy_from_slice(&size.to_be_bytes());
        assert_eq!(announced_size(&AlignedBuffer(bytes)), size);
    }
}

#[test]
fn there_is_always_one_block_more() {
    assert_eq!(block_count(0), 1);
    assert_eq!(block_count(1), 1);
    assert_eq!(block_count(63), 1);
    assert_eq!(block_count(64), 2);
    assert_eq!(block_count(128), 3);
    assert_eq!(block_count(458752), 7169);
    assert_eq!(block_count(u32::MAX), 67108864);
}

#[test]
fn buffer_is_read_and_written_through_its_slices() {
    let mut buffer = AlignedBuffer([0u8; 64]);
    assert_eq!(buffer.as_ref(), &[0u8; 64][..]);
    buffer.as_mut()[..3].copy_from_slice(&[1, 2, 3]);
    buffer.as_mut()[63] = 9;
    assert_eq!(buffer.as_ref().len(), 64);
    assert_eq!(buffer.as_ref()[..4], [1, 2, 3, 0]);
    assert_eq!(buffer.0[63], 9);
    let small = AlignedBuffer([7u8, 8]);
    assert_eq!(small.as_ref(), &[7u8, 8][..]);
}

#[test]
fn indicator_alternates_at_the_rate_of_the_moment() {
    let mut indicator = Indicator::new();
    assert_eq!(indicator.next, Level::High);
    let rates = [50u64, 50, 25, 25, 100, 0, u64::MAX];
    let mut halves = Vec::new();
    for rate in rates {
        halves.push(indicator.tick(rate));
    }
    assert_eq!(
        halves,
        vec![
            HalfPeriod { level: Level::High, millis: 50 },
            HalfPeriod { level: Level::Low, millis: 50 },
            HalfPeriod { level: Level::High, millis: 25 },
            HalfPeriod { level: Level::Low, millis: 25 },
            HalfPeriod { level: Level::High, millis: 100 },
            HalfPeriod { level: Level::Low, millis: 0 },
            HalfPeriod { level: Level::High, millis: u64::MAX },
        ]
    );
    assert_eq!(indicator.next, Level::Low);
    assert_eq!(Level::High.toggled(), Level::Low);
    assert_eq!(Level::Low.toggled(), Level::High);
}

#[test]
fn identity_names_a_composite_serial_device() {
    let id = identity();
    assert_eq!(id.vendor_id, 0xc0de);
    assert_eq!(id.product_id, 0xcafe);
    assert_eq!(id.manufacturer, "lab");
    assert_eq!(id.product, "IBOOT");
    assert_eq!(id.serial_number, "24022022");
    assert_eq!((id.device_class, id.device_sub_class, id.device_protocol), (0xEF, 0x02, 0x01));
    assert!(id.composite_with_iads);
    assert_eq!(id.max_packet_size, 64);
}
