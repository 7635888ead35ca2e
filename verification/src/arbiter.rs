//! The first seconds after a reset: the choice between the application and
//! interactive mode, and the wait for a host.

use crate::flash::{FlashWindow, FLASH_BASE};
use crate::machine::{
    Action, Bootloader, Event, Phase, ARBITRATION_MILLIS, BOOT_NORMAL, BOOT_SENTINEL,
    RATE_IDLE_MILLIS, RATE_REBOOT_MILLIS, RATE_TRANSFER_MILLIS, SETTLE_MILLIS,
};
use crate::session::{
    flag_after, fresh, lemma_run_concat, lemma_run_push, lemma_silent_concat, performed,
    rate_after, run, silent,
};
use crate::upload::engine;
use crate::wire::{Message, Packet};
use vstd::prelude::*;

verus! {

/// The events of a normal start: the flag holds `flag`, the board comes up,
/// the pause ends, the deadline runs.
pub open spec fn startup_events(flag: u32) -> Seq<Event> {
    seq![Event::Flag(flag), Event::Done, Event::Done, Event::Done]
}

/// What the device does on a normal start, before it listens for a host.
pub open spec fn startup_actions() -> Seq<Action> {
    seq![
        Action::ReadFlag,
        Action::BringUp,
        Action::Sleep { millis: SETTLE_MILLIS },
        Action::ArmDeadline { millis: ARBITRATION_MILLIS },
    ]
}

/// The events of `count` vain attempts to hear a host: the channel opens
/// and the read fails.
pub open spec fn retry_events(count: nat) -> Seq<Event>
    decreases count,
{
    if count == 0 {
        Seq::empty()
    } else {
        retry_events((count - 1) as nat) + seq![Event::Done, Event::Failed]
    }
}

/// What the device does over `count` vain attempts to hear a host.
pub open spec fn retry_actions(count: nat) -> Seq<Action>
    decreases count,
{
    if count == 0 {
        Seq::empty()
    } else {
        retry_actions((count - 1) as nat) + seq![Action::WaitConnection, Action::ReadPacket]
    }
}

/// The events of a deadline that passes: while the device waits for the
/// channel, or, where `reading`, while it waits for a packet. Then the
/// indicator is set and the flag is written.
pub open spec fn timeout_events(reading: bool) -> Seq<Event> {
    if reading {
        seq![Event::Done, Event::Timeout, Event::Done, Event::Done]
    } else {
        seq![Event::Timeout, Event::Done, Event::Done]
    }
}

/// What the device does when the deadline passes: it gives up the pending
/// wait, slows the indicator and sets the flag to the sentinel.
pub open spec fn timeout_actions(reading: bool) -> Seq<Action> {
    if reading {
        seq![
            Action::WaitConnection,
            Action::ReadPacket,
            Action::SetIndicatorRate { millis: RATE_REBOOT_MILLIS },
            Action::WriteFlag(BOOT_SENTINEL),
        ]
    } else {
        seq![
            Action::WaitConnection,
            Action::SetIndicatorRate { millis: RATE_REBOOT_MILLIS },
            Action::WriteFlag(BOOT_SENTINEL),
        ]
    }
}

/// The events of a host that shows up: the channel opens, a packet comes
/// in, the indicator is set.
pub open spec fn presence_events(packet: Packet) -> Seq<Event> {
    seq![Event::Done, Event::Packet(packet), Event::Done]
}

/// What the device does when a host shows up: it takes the packet as a sign
/// of life, whatever it holds, and speeds the indicator up.
pub open spec fn presence_actions() -> Seq<Action> {
    seq![
        Action::WaitConnection,
        Action::ReadPacket,
        Action::SetIndicatorRate { millis: RATE_TRANSFER_MILLIS },
    ]
}

/// The bootloader while it waits for a host to open the channel.
pub open spec fn listening(window: FlashWindow) -> Bootloader {
    Bootloader { window, phase: Phase::ProbeConnection }
}

/// A normal start leads to the wait for a host.
pub proof fn lemma_startup(window: FlashWindow, flag: u32)
    requires
        flag != BOOT_SENTINEL,
    ensures
        run(fresh(window), startup_events(flag)) == listening(window),
        performed(fresh(window), startup_events(flag)) == startup_actions(),
{
    let boot = fresh(window);
    let e0 = Seq::<Event>::empty();
    let e1 = e0.push(Event::Flag(flag));
    let e2 = e1.push(Event::Done);
    let e3 = e2.push(Event::Done);
    let e4 = e3.push(Event::Done);
    assert(run(boot, e0).phase == Phase::ReadFlag);
    lemma_run_push(boot, e0, Event::Flag(flag));
    assert(run(boot, e1).phase == Phase::BringUp);
    lemma_run_push(boot, e1, Event::Done);
    assert(run(boot, e2).phase == Phase::Settle);
    lemma_run_push(boot, e2, Event::Done);
    assert(run(boot, e3).phase == Phase::ArmDeadline);
    lemma_run_push(boot, e3, Event::Done);
    assert(e4 =~= startup_events(flag));
    assert(performed(boot, e4) =~= startup_actions());
}

/// Vain attempts to hear a host leave the device waiting for one.
pub proof fn lemma_retries(window: FlashWindow, count: nat)
    ensures
        ({
            let boot = listening(window);
            &&& run(boot, retry_events(count)) == boot
            &&& performed(boot, retry_events(count)) == retry_actions(count)
            &&& silent(retry_actions(count))
        }),
    decreases count,
{
    let boot = listening(window);
    if count == 0 {
        assert(performed(boot, retry_events(count)) =~= retry_actions(count));
    } else {
        let before = (count - 1) as nat;
        lemma_retries(window, before);
        let e0 = Seq::<Event>::empty();
        let e1 = e0.push(Event::Done);
        let e2 = e1.push(Event::Failed);
        lemma_run_push(boot, e0, Event::Done);
        assert(run(boot, e1).phase == Phase::ProbePacket);
        lemma_run_push(boot, e1, Event::Failed);
        assert(e2 =~= seq![Event::Done, Event::Failed]);
        assert(performed(boot, e2) =~= seq![Action::WaitConnection, Action::ReadPacket]);
        lemma_run_concat(boot, retry_events(before), e2);
        assert(silent(seq![Action::WaitConnection, Action::ReadPacket]));
        lemma_silent_concat(
            retry_actions(before),
            seq![Action::WaitConnection, Action::ReadPacket],
        );
    }
}

/// The deadline passes while the device waits for a host.
pub proof fn lemma_timeout(window: FlashWindow, reading: bool)
    ensures
        ({
            let boot = listening(window);
            &&& run(boot, timeout_events(reading)) == Bootloader { window, phase: Phase::Reset }
            &&& performed(boot, timeout_events(reading)) == timeout_actions(reading)
        }),
{
    let boot = listening(window);
    let e0 = Seq::<Event>::empty();
    if reading {
        let e1 = e0.push(Event::Done);
        let e2 = e1.push(Event::Timeout);
        let e3 = e2.push(Event::Done);
        let e4 = e3.push(Event::Done);
        lemma_run_push(boot, e0, Event::Done);
        assert(run(boot, e1).phase == Phase::ProbePacket);
        lemma_run_push(boot, e1, Event::Timeout);
        assert(run(boot, e2).phase == Phase::IndicateReboot);
        lemma_run_push(boot, e2, Event::Done);
        assert(run(boot, e3).phase == Phase::MarkReboot);
        lemma_run_push(boot, e3, Event::Done);
        assert(e4 =~= timeout_events(reading));
        assert(performed(boot, e4) =~= timeout_actions(reading));
    } else {
        let e1 = e0.push(Event::Timeout);
        let e2 = e1.push(Event::Done);
        let e3 = e2.push(Event::Done);
        lemma_run_push(boot, e0, Event::Timeout);
        assert(run(boot, e1).phase == Phase::IndicateReboot);
        lemma_run_push(boot, e1, Event::Done);
        assert(run(boot, e2).phase == Phase::MarkReboot);
        lemma_run_push(boot, e2, Event::Done);
        assert(e3 =~= timeout_events(reading));
        assert(performed(boot, e3) =~= timeout_actions(reading));
    }
}

/// A host shows up while the device waits for one.
pub proof fn lemma_presence(window: FlashWindow, packet: Packet)
    ensures
        ({
            let boot = listening(window);
            &&& run(boot, presence_events(packet)) == engine(window)
            &&& performed(boot, presence_events(packet)) == presence_actions()
        }),
{
    let boot = listening(window);
    let e0 = Seq::<Event>::empty();
    let e1 = e0.push(Event::Done);
    let e2 = e1.push(Event::Packet(packet));
    let e3 = e2.push(Event::Done);
    lemma_run_push(boot, e0, Event::Done);
    assert(run(boot, e1).phase == Phase::ProbePacket);
    lemma_run_push(boot, e1, Event::Packet(packet));
    assert(run(boot, e2).phase == Phase::IndicateTransfer);
    lemma_run_push(boot, e2, Event::Done);
    assert(e3 =~= presence_events(packet));
    assert(performed(boot, e3) =~= presence_actions());
}

/// No host within the deadline: the device restarts into the application.
///
/// For every window, every flag value but the sentinel, every number of
/// failed reads before the deadline, and whether the deadline passes during
/// a wait for the channel or during a read: the device arms a deadline of
/// five seconds, and when it passes slows the indicator from its idle rate
/// to the reboot rate, sets the flag to the sentinel, and resets. Up to
/// then it has sent, erased and programmed nothing.
pub proof fn lemma_arbitration_timeout(
    window: FlashWindow,
    flag: u32,
    retries: nat,
    reading: bool,
)
    requires
        flag != BOOT_SENTINEL,
    ensures
        ({
            let events = startup_events(flag) + retry_events(retries) + timeout_events(reading);
            let actions = performed(fresh(window), events);
            &&& actions == startup_actions() + retry_actions(retries) + timeout_actions(reading)
            &&& run(fresh(window), events).spec_action() == Action::Reset
            &&& rate_after(RATE_IDLE_MILLIS, actions) == RATE_REBOOT_MILLIS
            &&& flag_after(flag, actions) == BOOT_SENTINEL
            &&& silent(actions)
        }),
{
    let first = startup_events(flag);
    let middle = retry_events(retries);
    let last = timeout_events(reading);
    lemma_startup(window, flag);
    lemma_retries(window, retries);
    lemma_timeout(window, reading);
    lemma_run_concat(fresh(window), first, middle);
    lemma_run_concat(fresh(window), first + middle, last);
    let actions = startup_actions() + retry_actions(retries) + timeout_actions(reading);
    assert(performed(fresh(window), first + middle + last) == actions);
    assert(actions.last() == Action::WriteFlag(BOOT_SENTINEL));
    assert(actions.drop_last().last() == Action::SetIndicatorRate { millis: RATE_REBOOT_MILLIS });
    assert(rate_after(RATE_IDLE_MILLIS, actions) == RATE_REBOOT_MILLIS) by {
        reveal_with_fuel(rate_after, 2);
    }
    assert(silent(startup_actions()));
    assert(silent(timeout_actions(reading)));
    lemma_silent_concat(startup_actions(), retry_actions(retries));
    lemma_silent_concat(startup_actions() + retry_actions(retries), timeout_actions(reading));
}

/// A host within the deadline: the device turns to the transfer protocol.
///
/// For every window, every flag value but the sentinel, every number of
/// failed reads before the first packet, and whatever that packet holds:
/// the device speeds the indicator from its idle rate to the transfer rate
/// and enters the transfer protocol, whose first message is `connected`.
pub proof fn lemma_arbitration_host_present(
    window: FlashWindow,
    flag: u32,
    retries: nat,
    packet: Packet,
)
    requires
        flag != BOOT_SENTINEL,
    ensures
        ({
            let events = startup_events(flag) + retry_events(retries) + presence_events(packet);
            let actions = performed(fresh(window), events);
            &&& actions == startup_actions() + retry_actions(retries) + presence_actions()
            &&& run(fresh(window), events) == engine(window)
            &&& rate_after(RATE_IDLE_MILLIS, actions) == RATE_TRANSFER_MILLIS
            &&& silent(actions)
            &&& engine(window).spec_action() == Action::WaitConnection
            &&& engine(window).next(Event::Done).spec_action() == Action::Send(Message::Connected)
        }),
{
    let first = startup_events(flag);
    let middle = retry_events(retries);
    let last = presence_events(packet);
    lemma_startup(window, flag);
    lemma_retries(window, retries);
    lemma_presence(window, packet);
    lemma_run_concat(fresh(window), first, middle);
    lemma_run_concat(fresh(window), first + middle, last);
    let actions = startup_actions() + retry_actions(retries) + presence_actions();
    assert(performed(fresh(window), first + middle + last) == actions);
    assert(actions.last() == Action::SetIndicatorRate { millis: RATE_TRANSFER_MILLIS });
    assert(silent(startup_actions()));
    assert(silent(presence_actions()));
    lemma_silent_concat(startup_actions(), retry_actions(retries));
    lemma_silent_concat(startup_actions() + retry_actions(retries), presence_actions());
}

/// The flag carries the decision to start the application over a reset.
///
/// Whenever a step leads to the reset, the action that this step completed
/// was the write of the sentinel to the flag. The bootloader that starts
/// after the reset reads the sentinel, clears the flag, reads the first two
/// words of the image at the start of the window, and hands over: the
/// vector table is the image, the stack pointer its first word, the entry
/// point its second. It brings nothing up and does not wait for a host.
pub proof fn lemma_flag_round_trip(
    boot: Bootloader,
    event: Event,
    flag: u32,
    first: u32,
    second: u32,
)
    requires
        boot.window.wf(),
        !(boot.phase is Reset),
        boot.next(event).phase is Reset,
    ensures
        ({
            let stored = flag_after(flag, seq![boot.spec_action()]);
            let events = seq![Event::Flag(stored), Event::Done, Event::Words(first, second)];
            let actions = performed(fresh(boot.window), events);
            let image = (FLASH_BASE + boot.window.start()) as u32;
            &&& boot.spec_action() == Action::WriteFlag(BOOT_SENTINEL)
            &&& stored == BOOT_SENTINEL
            &&& image == FLASH_BASE + boot.window.start()
            &&& actions == seq![
                Action::ReadFlag,
                Action::WriteFlag(BOOT_NORMAL),
                Action::ReadVectors { address: image },
            ]
            &&& flag_after(stored, actions) == BOOT_NORMAL
            &&& run(fresh(boot.window), events).spec_action() == Action::Handoff {
                vector_table: image,
                stack_pointer: first,
                entry: second,
            }
            &&& run(fresh(boot.window), events).spec_finished()
        }),
{
    let next = fresh(boot.window);
    let image = (FLASH_BASE + boot.window.start()) as u32;
    let vectors = Action::ReadVectors { address: image };
    let e0 = Seq::<Event>::empty();
    let e1 = e0.push(Event::Flag(BOOT_SENTINEL));
    let e2 = e1.push(Event::Done);
    let e3 = e2.push(Event::Words(first, second));
    assert(seq![boot.spec_action()].last() == boot.spec_action());
    lemma_run_push(next, e0, Event::Flag(BOOT_SENTINEL));
    assert(run(next, e1).phase == Phase::ClearFlag);
    lemma_run_push(next, e1, Event::Done);
    assert(run(next, e2).phase == Phase::ReadVectors);
    lemma_run_push(next, e2, Event::Words(first, second));
    assert(e3 =~= seq![Event::Flag(BOOT_SENTINEL), Event::Done, Event::Words(first, second)]);
    let actions = seq![Action::ReadFlag, Action::WriteFlag(BOOT_NORMAL), vectors];
    assert(performed(next, e3) =~= actions);
    assert(actions.drop_last().last() == Action::WriteFlag(BOOT_NORMAL));
    assert(flag_after(BOOT_SENTINEL, actions) == BOOT_NORMAL) by {
        reveal_with_fuel(flag_after, 2);
    }
}

} // verus!
