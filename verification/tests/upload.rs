use iboot::f411ceu6;
use iboot::machine::{
    transition, Action, Bootloader, Event, Phase, BOOT_SENTINEL, LINGER_MILLIS,
};
use iboot::wire::{Message, Packet};
use iboot::{AlignedBuffer, FlashWindow};

fn upload_header(size: u32) -> Packet {
    let mut bytes = [0xEEu8; 64];
    bytes[0..4].copy_from_slice(&size.to_be_bytes());
    AlignedBuffer(bytes)
}

fn upload_block(index: u32) -> Packet {
    let mut bytes = [0u8; 64];
    for (at, byte) in bytes.iter_mut().enumerate() {
        *byte = (index as usize * 7 + at) as u8;
    }
    AlignedBuffer(bytes)
}

fn upload_engine(window: FlashWindow) -> Bootloader {
    Bootloader { window, phase: Phase::AnnounceConnection }
}

/// Drives a whole upload of `size` bytes in which nothing fails and returns
/// every action, the final one included.
fn upload_run(window: FlashWindow, size: u32) -> Vec<Action> {
    let mut boot = upload_engine(window);
    let mut actions = vec![boot.action()];
    let mut index = 0u32;
    while !boot.finished() {
        let event = match boot.action() {
            Action::ReadPacket => match boot.phase {
                Phase::SizePacket => Event::Packet(upload_header(size)),
                _ => {
                    let block = upload_block(index);
                    index += 1;
                    Event::Packet(block)
                }
            },
            _ => Event::Done,
        };
        actions.push(boot.step(event));
    }
    actions
}

fn upload_writes(actions: &[Action]) -> Vec<(u32, Packet)> {
    let mut writes = Vec::new();
    for action in actions {
        if let Action::WriteBlock { offset, data } = action {
            writes.push((*offset, *data));
        }
    }
    writes
}

#[test]
fn image_of_128_bytes_takes_three_blocks() {
    let window = f411ceu6::flash_window();
    assert_eq!(window.capacity(), 65536 + 393216);
    let start = f411ceu6::FLASH_START;
    let actions = upload_run(window, 128);
    let mut expected = vec![
        Action::WaitConnection,
        Action::Send(Message::Connected),
        Action::WaitConnection,
        Action::ReadPacket,
        Action::Erase { from: start, to: f411ceu6::FLASH_END },
        Action::Send(Message::Erased),
    ];
    for index in 0..3u32 {
        expected.push(Action::WaitConnection);
        expected.push(Action::ReadPacket);
        expected.push(Action::WriteBlock { offset: start + 64 * index, data: upload_block(index) });
        expected.push(Action::WaitConnection);
        expected.push(Action::Send(Message::Echo(upload_block(index))));
        expected.push(Action::Send(Message::Terminator));
    }
    expected.push(Action::Sleep { millis: 1000 });
    expected.push(Action::WriteFlag(0xB00110AD));
    expected.push(Action::Reset);
    assert_eq!(actions, expected);
    assert_eq!(
        upload_writes(&actions),
        vec![
            (start, upload_block(0)),
            (start + 64, upload_block(1)),
            (start + 128, upload_block(2)),
        ]
    );
}

#[test]
fn empty_image_still_takes_one_block() {
    let window = f411ceu6::flash_window();
    let actions = upload_run(window, 0);
    assert_eq!(upload_writes(&actions), vec![(f411ceu6::FLASH_START, upload_block(0))]);
    assert_eq!(
        actions[6..],
        [
            Action::WaitConnection,
            Action::ReadPacket,
            Action::WriteBlock { offset: f411ceu6::FLASH_START, data: upload_block(0) },
            Action::WaitConnection,
            Action::Send(Message::Echo(upload_block(0))),
            Action::Send(Message::Terminator),
            Action::Sleep { millis: LINGER_MILLIS },
            Action::WriteFlag(BOOT_SENTINEL),
            Action::Reset,
        ]
    );
}

#[test]
fn block_count_follows_the_size() {
    let window = f411ceu6::flash_window();
    for (size, blocks) in [(1u32, 1usize), (63, 1), (64, 2), (65, 2), (127, 2), (128, 3), (6400, 101)] {
        let writes = upload_writes(&upload_run(window, size));
        assert_eq!(writes.len(), blocks, "size {}", size);
        for (index, (offset, data)) in writes.iter().enumerate() {
            assert_eq!(*offset, f411ceu6::FLASH_START + 64 * index as u32);
            assert_eq!(*data, upload_block(index as u32));
        }
    }
}

#[test]
fn image_that_fills_the_window_is_accepted() {
    let window = f411ceu6::flash_window();
    let capacity = window.capacity();
    let actions = upload_run(window, capacity);
    assert_eq!(actions[4], Action::Erase { from: window.start(), to: window.end() });
    assert_eq!(actions[5], Action::Send(Message::Erased));
    let writes = upload_writes(&actions);
    assert_eq!(writes.len() as u32, capacity / 64 + 1);
    assert_eq!(writes.len(), 7169);
    for pair in writes.windows(2) {
        assert_eq!(pair[1].0, pair[0].0 + 64);
    }
    assert_eq!(writes[0].0, window.start());
    assert_eq!(actions.last(), Some(&Action::Reset));
}

#[test]
fn oversized_image_is_refused_but_the_blocks_are_taken() {
    let window = f411ceu6::flash_window();
    let size = window.capacity() + 1;
    let actions = upload_run(window, size);
    assert_eq!(
        actions[..5],
        [
            Action::WaitConnection,
            Action::Send(Message::Connected),
            Action::WaitConnection,
            Action::ReadPacket,
            Action::Send(Message::TooBig),
        ]
    );
    assert!(!actions.iter().any(|action| matches!(action, Action::Erase { .. })));
    assert!(!actions.iter().any(|action| matches!(action, Action::Send(Message::Erased))));
    let writes = upload_writes(&actions);
    assert_eq!(writes.len() as u32, size / 64 + 1);
    assert_eq!(writes[0], (window.start(), upload_block(0)));
    assert_eq!(writes[7168].0, window.start() + 64 * 7168);
    assert_eq!(
        actions[actions.len() - 3..],
        [Action::Sleep { millis: 1000 }, Action::WriteFlag(BOOT_SENTINEL), Action::Reset]
    );
}

#[test]
fn size_is_read_from_the_first_four_bytes_only() {
    let window = f411ceu6::flash_window();
    let mut boot = Bootloader { window, phase: Phase::SizePacket };
    let mut bytes = [0xFFu8; 64];
    bytes[0] = 0x00;
    bytes[1] = 0x00;
    bytes[2] = 0x01;
    bytes[3] = 0x02;
    let action = boot.step(Event::Packet(AlignedBuffer(bytes)));
    assert_eq!(action, Action::Erase { from: 0x10000, to: 0x80000 });
    assert_eq!(boot.phase, Phase::Erase { size: 258 });
}

#[test]
fn failed_block_write_halts() {
    let window = f411ceu6::flash_window();
    let data = upload_block(3);
    let mut boot =
        Bootloader { window, phase: Phase::Program { size: 1000, index: 3, offset: 0x100C0, data } };
    assert_eq!(boot.action(), Action::WriteBlock { offset: 0x100C0, data });
    assert_eq!(boot.step(Event::Failed), Action::Halt);
    assert!(boot.finished());
    assert_eq!(boot.step(Event::Done), Action::Halt);
    assert_eq!(boot.step(Event::Packet(data)), Action::Halt);
    assert_eq!(boot.phase, Phase::Halt);
}

#[test]
fn transport_failure_aborts() {
    let window = f411ceu6::flash_window();
    let data = upload_block(0);
    let phases = [
        Phase::Announce,
        Phase::SizePacket,
        Phase::Erase { size: 10 },
        Phase::Accept { size: 10 },
        Phase::Reject { size: 1 << 30 },
        Phase::BlockPacket { size: 10, index: 0 },
        Phase::Echo { size: 10, index: 0, data },
        Phase::Terminate { size: 10, index: 0 },
    ];
    for phase in phases {
        let mut boot = Bootloader { window, phase };
        assert_eq!(boot.step(Event::Failed), Action::Abort, "{:?}", phase);
        assert!(boot.finished());
        assert_eq!(boot.step(Event::Done), Action::Abort);
    }
}

#[test]
fn block_beyond_the_offset_range_aborts() {
    let window = FlashWindow::new(0xF7FF_FF00, 0xF7FF_FFFF).unwrap();
    let data = upload_block(1);
    // The last block that still ends within the 32-bit offsets.
    let last = (u32::MAX - 64 - 0xF7FF_FF00) / 64;
    let mut fits = Bootloader { window, phase: Phase::BlockPacket { size: u32::MAX, index: last } };
    assert_eq!(
        fits.step(Event::Packet(data)),
        Action::WriteBlock { offset: 0xF7FF_FF00 + 64 * last, data }
    );
    let mut beyond =
        Bootloader { window, phase: Phase::BlockPacket { size: u32::MAX, index: last + 1 } };
    assert_eq!(beyond.step(Event::Packet(data)), Action::Abort);
    assert_eq!(beyond.phase, Phase::Abort);
}

#[test]
fn last_block_is_followed_by_the_pause() {
    let window = f411ceu6::flash_window();
    let mut more = Bootloader { window, phase: Phase::Terminate { size: 128, index: 1 } };
    assert_eq!(more.step(Event::Done), Action::WaitConnection);
    assert_eq!(more.phase, Phase::BlockConnection { size: 128, index: 2 });
    let mut done = Bootloader { window, phase: Phase::Terminate { size: 128, index: 2 } };
    assert_eq!(done.step(Event::Done), Action::Sleep { millis: 1000 });
    assert_eq!(done.phase, Phase::Linger);
}

#[test]
fn replay_returns_what_the_steps_return() {
    let window = f411ceu6::flash_window();
    let events = [
        Event::Done,
        Event::Done,
        Event::Done,
        Event::Packet(upload_header(0)),
        Event::Done,
        Event::Done,
        Event::Done,
        Event::Packet(upload_block(0)),
        Event::Done,
        Event::Done,
        Event::Done,
        Event::Done,
        Event::Done,
        Event::Done,
    ];
    let mut replayed = upload_engine(window);
    let actions = replayed.replay(&events);
    let mut stepped = upload_engine(window);
    let mut expected = Vec::new();
    for event in events {
        expected.push(stepped.action());
        stepped.step(event);
    }
    assert_eq!(actions, expected);
    assert_eq!(replayed, stepped);
    assert_eq!(replayed.action(), Action::Reset);
    assert_eq!(actions.len(), 14);
    assert_eq!(actions[8], Action::WriteBlock { offset: 0x10000, data: upload_block(0) });
    let mut idle = upload_engine(window);
    assert_eq!(idle.replay(&[]), vec![]);
    assert_eq!(idle, upload_engine(window));
}

#[test]
fn blocks_before_a_failure_are_in_order() {
    let window = f411ceu6::flash_window();
    let mut boot = upload_engine(window);
    let mut events = vec![
        Event::Done,
        Event::Done,
        Event::Done,
        Event::Packet(upload_header(1000)),
        Event::Done,
        Event::Done,
    ];
    for index in 0..2u32 {
        events.push(Event::Done);
        events.push(Event::Packet(upload_block(index)));
        events.push(Event::Done);
        events.push(Event::Done);
        events.push(Event::Done);
        events.push(Event::Done);
    }
    events.push(Event::Done);
    events.push(Event::Packet(upload_block(2)));
    events.push(Event::Failed);
    events.push(Event::Done);
    events.push(Event::Timeout);
    let actions = boot.replay(&events);
    assert_eq!(boot.action(), Action::Halt);
    assert_eq!(
        upload_writes(&actions),
        vec![
            (0x10000, upload_block(0)),
            (0x10040, upload_block(1)),
            (0x10080, upload_block(2)),
        ]
    );
    assert_eq!(actions[actions.len() - 2..], [Action::Halt, Action::Halt]);
    let echoes = actions
        .iter()
        .filter(|action| matches!(action, Action::Send(Message::Echo(_))))
        .count();
    assert_eq!(echoes, 2);
}

#[test]
fn transition_is_the_step_without_the_machine() {
    let window = f411ceu6::flash_window();
    let data = upload_block(5);
    assert_eq!(transition(&window, Phase::ReadFlag, Event::Flag(BOOT_SENTINEL)), Phase::ClearFlag);
    assert_eq!(transition(&window, Phase::ReadFlag, Event::Flag(0)), Phase::BringUp);
    assert_eq!(
        transition(&window, Phase::SizePacket, Event::Packet(upload_header(458752))),
        Phase::Erase { size: 458752 }
    );
    assert_eq!(
        transition(&window, Phase::SizePacket, Event::Packet(upload_header(458753))),
        Phase::Reject { size: 458753 }
    );
    assert_eq!(
        transition(&window, Phase::Reject { size: 458753 }, Event::Done),
        Phase::BlockConnection { size: 458753, index: 0 }
    );
    assert_eq!(
        transition(&window, Phase::BlockPacket { size: 640, index: 5 }, Event::Packet(data)),
        Phase::Program { size: 640, index: 5, offset: 0x10000 + 320, data }
    );
    assert_eq!(
        transition(
            &window,
            Phase::Program { size: 640, index: 5, offset: 0x10140, data },
            Event::Done
        ),
        Phase::EchoConnection { size: 640, index: 5, data }
    );
    assert_eq!(transition(&window, Phase::Linger, Event::Done), Phase::MarkReboot);
    assert_eq!(transition(&window, Phase::Abort, Event::Done), Phase::Abort);
}
