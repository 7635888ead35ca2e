//! The transfer protocol from the greeting to the reset: what the device
//! does with an image that a host sends block by block.

use crate::flash::FlashWindow;
use crate::machine::{
    block_fits, block_offset, image_fits, last_block, Action, Bootloader, Event, Phase,
    BOOT_SENTINEL, LINGER_MILLIS,
};
use crate::session::{
    flag_after, lemma_programmed_concat, lemma_programmed_push, lemma_run_concat, lemma_run_push,
    performed, programmed, run,
};
use crate::wire::{spec_announced_size, Message, Packet};
use vstd::prelude::*;

verus! {

/// The events of one block that the host sends and the device takes: the
/// channel is open, the packet `data` comes in, the flash takes it, the
/// channel is open, and both packets of the acknowledgement go out.
pub open spec fn block_events(data: Packet) -> Seq<Event> {
    seq![Event::Done, Event::Packet(data), Event::Done, Event::Done, Event::Done, Event::Done]
}

/// What the device does for one block: it reads `data`, programs it at
/// `offset`, sends the same bytes back and closes with an empty packet.
pub open spec fn block_actions(offset: u32, data: Packet) -> Seq<Action> {
    seq![
        Action::WaitConnection,
        Action::ReadPacket,
        Action::WriteBlock { offset, data },
        Action::WaitConnection,
        Action::Send(Message::Echo(data)),
        Action::Send(Message::Terminator),
    ]
}

/// The phase after block `index` of an image of `size` bytes: the next
/// block, or the pause that follows the last one.
pub open spec fn after_block(size: u32, index: u32) -> Phase {
    if index < last_block(size) {
        Phase::BlockConnection { size, index: (index + 1) as u32 }
    } else {
        Phase::Linger
    }
}

/// One block, from the wait for the channel to the closing packet.
pub proof fn lemma_block(window: FlashWindow, size: u32, index: u32, data: Packet)
    requires
        block_fits(window, index),
    ensures
        ({
            let boot = Bootloader { window, phase: Phase::BlockConnection { size, index } };
            &&& run(boot, block_events(data)) == Bootloader {
                window,
                phase: after_block(size, index),
            }
            &&& performed(boot, block_events(data)) == block_actions(
                block_offset(window, index) as u32,
                data,
            )
        }),
{
    let boot = Bootloader { window, phase: Phase::BlockConnection { size, index } };
    let e0 = Seq::<Event>::empty();
    let e1 = e0.push(Event::Done);
    let e2 = e1.push(Event::Packet(data));
    let e3 = e2.push(Event::Done);
    let e4 = e3.push(Event::Done);
    let e5 = e4.push(Event::Done);
    let e6 = e5.push(Event::Done);
    let offset = block_offset(window, index) as u32;
    assert(run(boot, e0).phase == Phase::BlockConnection { size, index });
    lemma_run_push(boot, e0, Event::Done);
    assert(run(boot, e1).phase == Phase::BlockPacket { size, index });
    lemma_run_push(boot, e1, Event::Packet(data));
    assert(run(boot, e2).phase == Phase::Program { size, index, offset, data });
    lemma_run_push(boot, e2, Event::Done);
    assert(run(boot, e3).phase == Phase::EchoConnection { size, index, data });
    lemma_run_push(boot, e3, Event::Done);
    assert(run(boot, e4).phase == Phase::Echo { size, index, data });
    lemma_run_push(boot, e4, Event::Done);
    assert(run(boot, e5).phase == Phase::Terminate { size, index });
    lemma_run_push(boot, e5, Event::Done);
    assert(run(boot, e6).phase == after_block(size, index));
    assert(e6 =~= block_events(data));
    assert(performed(boot, e6) =~= block_actions(offset, data));
}

/// The events of an image that comes in block by block.
pub open spec fn blocks_events(blocks: Seq<Packet>) -> Seq<Event>
    decreases blocks.len(),
{
    if blocks.len() == 0 {
        Seq::empty()
    } else {
        blocks_events(blocks.drop_last()) + block_events(blocks.last())
    }
}

/// What the device does for an image that comes in block by block: block
/// `k` is programmed at offset `start + 64 * k`.
pub open spec fn blocks_actions(window: FlashWindow, blocks: Seq<Packet>) -> Seq<Action>
    decreases blocks.len(),
{
    if blocks.len() == 0 {
        Seq::empty()
    } else {
        blocks_actions(window, blocks.drop_last()) + block_actions(
            block_offset(window, (blocks.len() - 1) as u32) as u32,
            blocks.last(),
        )
    }
}

/// The first blocks of an image, from the wait for the channel before block
/// 0 to the closing packet of the last of them.
pub proof fn lemma_blocks(window: FlashWindow, size: u32, blocks: Seq<Packet>)
    requires
        1 <= blocks.len() <= last_block(size) + 1,
        block_fits(window, (blocks.len() - 1) as u32),
    ensures
        ({
            let boot = Bootloader { window, phase: Phase::BlockConnection { size, index: 0 } };
            &&& run(boot, blocks_events(blocks)) == Bootloader {
                window,
                phase: after_block(size, (blocks.len() - 1) as u32),
            }
            &&& performed(boot, blocks_events(blocks)) == blocks_actions(window, blocks)
        }),
    decreases blocks.len(),
{
    let boot = Bootloader { window, phase: Phase::BlockConnection { size, index: 0 } };
    let index = (blocks.len() - 1) as u32;
    let before = blocks.drop_last();
    if blocks.len() == 1 {
        lemma_block(window, size, 0, blocks.last());
        assert(blocks_events(before) =~= Seq::<Event>::empty());
        assert(blocks_actions(window, before) =~= Seq::<Action>::empty());
        assert(blocks_events(blocks) =~= block_events(blocks.last()));
        assert(blocks_actions(window, blocks) =~= block_actions(
            block_offset(window, 0) as u32,
            blocks.last(),
        ));
    } else {
        lemma_blocks(window, size, before);
        lemma_block(window, size, index, blocks.last());
        lemma_run_concat(boot, blocks_events(before), block_events(blocks.last()));
    }
}

/// The actions of one block program that block and nothing else.
pub proof fn lemma_programmed_block(offset: u32, data: Packet)
    ensures
        programmed(block_actions(offset, data)) == seq![(offset, data)],
{
    let a0 = Seq::<Action>::empty();
    let a1 = a0.push(Action::WaitConnection);
    let a2 = a1.push(Action::ReadPacket);
    let a3 = a2.push(Action::WriteBlock { offset, data });
    let a4 = a3.push(Action::WaitConnection);
    let a5 = a4.push(Action::Send(Message::Echo(data)));
    let a6 = a5.push(Action::Send(Message::Terminator));
    lemma_programmed_push(a0, Action::WaitConnection);
    lemma_programmed_push(a1, Action::ReadPacket);
    lemma_programmed_push(a2, Action::WriteBlock { offset, data });
    lemma_programmed_push(a3, Action::WaitConnection);
    lemma_programmed_push(a4, Action::Send(Message::Echo(data)));
    lemma_programmed_push(a5, Action::Send(Message::Terminator));
    assert(a6 =~= block_actions(offset, data));
    assert(programmed(a6) =~= seq![(offset, data)]);
}

/// The blocks in the order in which they came, block `k` at the offset
/// `start + 64 * k`.
pub open spec fn placed(window: FlashWindow, blocks: Seq<Packet>) -> Seq<(u32, Packet)> {
    Seq::new(blocks.len(), |k: int| (block_offset(window, k as u32) as u32, blocks[k]))
}

/// The actions of a run of blocks program exactly those blocks, each in its
/// place.
pub proof fn lemma_programmed_blocks(window: FlashWindow, blocks: Seq<Packet>)
    requires
        blocks.len() <= u32::MAX,
    ensures
        programmed(blocks_actions(window, blocks)) == placed(window, blocks),
    decreases blocks.len(),
{
    if blocks.len() == 0 {
        assert(programmed(blocks_actions(window, blocks)) =~= placed(window, blocks));
    } else {
        let before = blocks.drop_last();
        let offset = block_offset(window, (blocks.len() - 1) as u32) as u32;
        lemma_programmed_blocks(window, before);
        lemma_programmed_block(offset, blocks.last());
        lemma_programmed_concat(
            blocks_actions(window, before),
            block_actions(offset, blocks.last()),
        );
        assert(programmed(blocks_actions(window, blocks)) =~= placed(window, blocks));
    }
}

/// The bootloader at the start of the transfer protocol: a host has been
/// heard and the greeting is due.
pub open spec fn engine(window: FlashWindow) -> Bootloader {
    Bootloader { window, phase: Phase::AnnounceConnection }
}

/// The image size that `header` announces.
pub open spec fn announced(header: Packet) -> u32 {
    spec_announced_size(header@) as u32
}

/// The events up to the first block: the greeting goes out, `header` comes
/// in, the window is erased where the image was `accepted`, and the reply
/// goes out.
pub open spec fn negotiation_events(header: Packet, accepted: bool) -> Seq<Event> {
    if accepted {
        seq![
            Event::Done,
            Event::Done,
            Event::Done,
            Event::Packet(header),
            Event::Done,
            Event::Done,
        ]
    } else {
        seq![Event::Done, Event::Done, Event::Done, Event::Packet(header), Event::Done]
    }
}

/// What the device does up to the first block. An image that is accepted
/// has the whole window erased and is answered with `erased`; one that is
/// not is answered with `to_big`, and nothing is erased.
pub open spec fn negotiation_actions(window: FlashWindow, accepted: bool) -> Seq<Action> {
    if accepted {
        seq![
            Action::WaitConnection,
            Action::Send(Message::Connected),
            Action::WaitConnection,
            Action::ReadPacket,
            Action::Erase { from: window.start(), to: window.end() },
            Action::Send(Message::Erased),
        ]
    } else {
        seq![
            Action::WaitConnection,
            Action::Send(Message::Connected),
            Action::WaitConnection,
            Action::ReadPacket,
            Action::Send(Message::TooBig),
        ]
    }
}

/// The events after the last block: the pause ends and the flag is set.
pub open spec fn completion_events() -> Seq<Event> {
    seq![Event::Done, Event::Done]
}

/// What the device does after the last block: it pauses for a second and
/// sets the flag to the sentinel. The reset that follows is the pending
/// action; nothing is sent.
pub open spec fn completion_actions() -> Seq<Action> {
    seq![Action::Sleep { millis: LINGER_MILLIS }, Action::WriteFlag(BOOT_SENTINEL)]
}

/// The events of a whole upload in which nothing fails.
pub open spec fn upload_events(header: Packet, accepted: bool, blocks: Seq<Packet>) -> Seq<
    Event,
> {
    negotiation_events(header, accepted) + blocks_events(blocks) + completion_events()
}

/// What the device does over a whole upload in which nothing fails.
pub open spec fn upload_actions(window: FlashWindow, accepted: bool, blocks: Seq<Packet>) -> Seq<
    Action,
> {
    negotiation_actions(window, accepted) + blocks_actions(window, blocks) + completion_actions()
}

/// From the greeting to the reply on the announced size.
pub proof fn lemma_negotiation(window: FlashWindow, header: Packet)
    ensures
        ({
            let accepted = image_fits(window, announced(header));
            &&& run(engine(window), negotiation_events(header, accepted)) == Bootloader {
                window,
                phase: Phase::BlockConnection { size: announced(header), index: 0 },
            }
            &&& performed(engine(window), negotiation_events(header, accepted))
                == negotiation_actions(window, accepted)
        }),
{
    let boot = engine(window);
    let accepted = image_fits(window, announced(header));
    let e0 = Seq::<Event>::empty();
    let e1 = e0.push(Event::Done);
    let e2 = e1.push(Event::Done);
    let e3 = e2.push(Event::Done);
    let e4 = e3.push(Event::Packet(header));
    let e5 = e4.push(Event::Done);
    let e6 = e5.push(Event::Done);
    let size = announced(header);
    assert(run(boot, e0).phase == Phase::AnnounceConnection);
    lemma_run_push(boot, e0, Event::Done);
    assert(run(boot, e1).phase == Phase::Announce);
    lemma_run_push(boot, e1, Event::Done);
    assert(run(boot, e2).phase == Phase::SizeConnection);
    lemma_run_push(boot, e2, Event::Done);
    assert(run(boot, e3).phase == Phase::SizePacket);
    lemma_run_push(boot, e3, Event::Packet(header));
    assert(run(boot, e4).phase == if accepted {
        Phase::Erase { size }
    } else {
        Phase::Reject { size }
    });
    lemma_run_push(boot, e4, Event::Done);
    if accepted {
        assert(run(boot, e5).phase == Phase::Accept { size });
        lemma_run_push(boot, e5, Event::Done);
        assert(e6 =~= negotiation_events(header, accepted));
        assert(performed(boot, e6) =~= negotiation_actions(window, accepted));
    } else {
        assert(e5 =~= negotiation_events(header, accepted));
        assert(performed(boot, e5) =~= negotiation_actions(window, accepted));
    }
}

/// From the pause after the last block to the reset.
pub proof fn lemma_completion(window: FlashWindow)
    ensures
        ({
            let boot = Bootloader { window, phase: Phase::Linger };
            &&& run(boot, completion_events()) == Bootloader { window, phase: Phase::Reset }
            &&& performed(boot, completion_events()) == completion_actions()
        }),
{
    let boot = Bootloader { window, phase: Phase::Linger };
    let e0 = Seq::<Event>::empty();
    let e1 = e0.push(Event::Done);
    let e2 = e1.push(Event::Done);
    lemma_run_push(boot, e0, Event::Done);
    lemma_run_push(boot, e1, Event::Done);
    assert(e2 =~= completion_events());
    assert(performed(boot, e2) =~= completion_actions());
}

/// A whole upload in which nothing fails and every block has an offset:
/// the device negotiates, takes `size / 64 + 1` blocks, pauses, sets the
/// flag and resets.
pub proof fn lemma_upload(window: FlashWindow, header: Packet, blocks: Seq<Packet>)
    requires
        blocks.len() == last_block(announced(header)) + 1,
        block_fits(window, last_block(announced(header)) as u32),
    ensures
        ({
            let accepted = image_fits(window, announced(header));
            let events = upload_events(header, accepted, blocks);
            &&& run(engine(window), events) == Bootloader { window, phase: Phase::Reset }
            &&& performed(engine(window), events) == upload_actions(window, accepted, blocks)
        }),
{
    let size = announced(header);
    let accepted = image_fits(window, size);
    let first = negotiation_events(header, accepted);
    let middle = blocks_events(blocks);
    let last = completion_events();
    lemma_negotiation(window, header);
    lemma_blocks(window, size, blocks);
    lemma_completion(window);
    lemma_run_concat(engine(window), first, middle);
    lemma_run_concat(engine(window), first + middle, last);
}

/// Neither the negotiation nor the completion programs a block.
proof fn lemma_programmed_around(window: FlashWindow, accepted: bool)
    ensures
        programmed(negotiation_actions(window, accepted)) == Seq::<(u32, Packet)>::empty(),
        programmed(completion_actions()) == Seq::<(u32, Packet)>::empty(),
{
    let a0 = Seq::<Action>::empty();
    let a1 = a0.push(Action::WaitConnection);
    let a2 = a1.push(Action::Send(Message::Connected));
    let a3 = a2.push(Action::WaitConnection);
    let a4 = a3.push(Action::ReadPacket);
    lemma_programmed_push(a0, Action::WaitConnection);
    lemma_programmed_push(a1, Action::Send(Message::Connected));
    lemma_programmed_push(a2, Action::WaitConnection);
    lemma_programmed_push(a3, Action::ReadPacket);
    if accepted {
        let erase = Action::Erase { from: window.start(), to: window.end() };
        let a5 = a4.push(erase);
        let a6 = a5.push(Action::Send(Message::Erased));
        lemma_programmed_push(a4, erase);
        lemma_programmed_push(a5, Action::Send(Message::Erased));
        assert(a6 =~= negotiation_actions(window, accepted));
    } else {
        let a5 = a4.push(Action::Send(Message::TooBig));
        lemma_programmed_push(a4, Action::Send(Message::TooBig));
        assert(a5 =~= negotiation_actions(window, accepted));
    }
    let c1 = a0.push(Action::Sleep { millis: LINGER_MILLIS });
    let c2 = c1.push(Action::WriteFlag(BOOT_SENTINEL));
    lemma_programmed_push(a0, Action::Sleep { millis: LINGER_MILLIS });
    lemma_programmed_push(c1, Action::WriteFlag(BOOT_SENTINEL));
    assert(c2 =~= completion_actions());
}

/// Over a whole upload the device programs the blocks that came, each in
/// its place, and nothing else; and it leaves the sentinel in the flag.
proof fn lemma_upload_effects(
    window: FlashWindow,
    accepted: bool,
    blocks: Seq<Packet>,
    flag: u32,
)
    requires
        blocks.len() <= u32::MAX,
    ensures
        programmed(upload_actions(window, accepted, blocks)) == placed(window, blocks),
        flag_after(flag, upload_actions(window, accepted, blocks)) == BOOT_SENTINEL,
{
    let first = negotiation_actions(window, accepted);
    let middle = blocks_actions(window, blocks);
    let last = completion_actions();
    lemma_programmed_around(window, accepted);
    lemma_programmed_blocks(window, blocks);
    lemma_programmed_concat(first, middle);
    lemma_programmed_concat(first + middle, last);
    assert(programmed(upload_actions(window, accepted, blocks)) =~= placed(window, blocks));
    assert(upload_actions(window, accepted, blocks).last() == Action::WriteFlag(BOOT_SENTINEL));
}

/// An image that fits the window is programmed in full.
///
/// For every window, every announced size up to the capacity of the window
/// and every content: where the transport and the flash do not fail, the
/// device greets, erases the window, answers `erased`, and then takes
/// exactly `size / 64 + 1` blocks. Block `k` is programmed at the offset
/// `start + 64 * k`, so the offsets rise from the start of the window, and
/// each block is followed by its echo and by an empty packet. After the
/// last block the device pauses, sets the flag to the sentinel, and resets.
pub proof fn lemma_accepted_image_is_programmed(
    window: FlashWindow,
    header: Packet,
    blocks: Seq<Packet>,
    flag: u32,
)
    requires
        window.wf(),
        image_fits(window, announced(header)),
        blocks.len() == announced(header) / 64 + 1,
    ensures
        ({
            let events = upload_events(header, true, blocks);
            let actions = performed(engine(window), events);
            &&& actions == upload_actions(window, true, blocks)
            &&& run(engine(window), events).spec_action() == Action::Reset
            &&& programmed(actions).len() == announced(header) / 64 + 1
            &&& forall|k: int|
                0 <= k < blocks.len() ==> (#[trigger] programmed(actions)[k]).0 == window.start()
                    + 64 * k && programmed(actions)[k].1 == blocks[k]
            &&& flag_after(flag, actions) == BOOT_SENTINEL
        }),
{
    lemma_upload(window, header, blocks);
    lemma_upload_effects(window, true, blocks, flag);
}

/// An image that does not fit the window is refused and then taken all the
/// same.
///
/// For every window and every announced size above its capacity: the
/// device greets, erases nothing, answers `to_big`, and goes on to take the
/// first block, which it programs at the start of the window.
pub proof fn lemma_oversized_image_is_refused_and_taken(
    window: FlashWindow,
    header: Packet,
    first: Packet,
)
    requires
        window.wf(),
        !image_fits(window, announced(header)),
    ensures
        ({
            let events = negotiation_events(header, false) + seq![
                Event::Done,
                Event::Packet(first),
            ];
            &&& performed(engine(window), events) == negotiation_actions(window, false) + seq![
                Action::WaitConnection,
                Action::ReadPacket,
            ]
            &&& run(engine(window), events).spec_action() == Action::WriteBlock {
                offset: window.start(),
                data: first,
            }
        }),
{
    let size = announced(header);
    let start = Bootloader { window, phase: Phase::BlockConnection { size, index: 0 } };
    let e0 = Seq::<Event>::empty();
    let e1 = e0.push(Event::Done);
    let e2 = e1.push(Event::Packet(first));
    lemma_negotiation(window, header);
    lemma_run_push(start, e0, Event::Done);
    assert(run(start, e1).phase == Phase::BlockPacket { size, index: 0 });
    lemma_run_push(start, e1, Event::Packet(first));
    assert(e2 =~= seq![Event::Done, Event::Packet(first)]);
    assert(performed(start, e2) =~= seq![Action::WaitConnection, Action::ReadPacket]);
    lemma_run_concat(engine(window), negotiation_events(header, false), e2);
}

/// An image that does not fit the window is taken to its last block, as
/// long as every block has an offset.
///
/// For every window and every announced size above its capacity whose last
/// block ends within the 32-bit offsets: where the transport and the flash
/// do not fail, the device answers `to_big`, erases nothing, and then does
/// what it does for an image that fits: `size / 64 + 1` blocks, block `k`
/// at `start + 64 * k`, each echoed and closed, then the pause, the
/// sentinel and the reset.
pub proof fn lemma_oversized_image_is_programmed(
    window: FlashWindow,
    header: Packet,
    blocks: Seq<Packet>,
    flag: u32,
)
    requires
        window.wf(),
        !image_fits(window, announced(header)),
        block_fits(window, announced(header) / 64),
        blocks.len() == announced(header) / 64 + 1,
    ensures
        ({
            let events = upload_events(header, false, blocks);
            let actions = performed(engine(window), events);
            &&& actions == upload_actions(window, false, blocks)
            &&& run(engine(window), events).spec_action() == Action::Reset
            &&& programmed(actions).len() == announced(header) / 64 + 1
            &&& forall|k: int|
                0 <= k < blocks.len() ==> (#[trigger] programmed(actions)[k]).0 == window.start()
                    + 64 * k && programmed(actions)[k].1 == blocks[k]
            &&& flag_after(flag, actions) == BOOT_SENTINEL
        }),
{
    lemma_upload(window, header, blocks);
    lemma_upload_effects(window, false, blocks, flag);
}

} // verus!
