//! Whole sessions: what the bootloader does over a sequence of events, what
//! its actions leave behind, and what holds of every session.

use crate::flash::FlashWindow;
use crate::machine::{block_offset, Action, Bootloader, Event, Phase};
use crate::wire::Packet;
use vstd::prelude::*;

verus! {

/// The state that `boot` reaches over `events`, taken in order.
pub open spec fn run(boot: Bootloader, events: Seq<Event>) -> Bootloader
    decreases events.len(),
{
    if events.len() == 0 {
        boot
    } else {
        run(boot, events.drop_last()).next(events.last())
    }
}

/// The actions that were performed while `boot` took `events`: the action
/// that was pending when each event arrived, in order. The action that is
/// pending after the last event is not among them.
pub open spec fn performed(boot: Bootloader, events: Seq<Event>) -> Seq<Action>
    decreases events.len(),
{
    if events.len() == 0 {
        Seq::empty()
    } else {
        performed(boot, events.drop_last()).push(run(boot, events.drop_last()).spec_action())
    }
}

/// Taking one more event is taking a step from where the others led.
pub proof fn lemma_run_push(boot: Bootloader, events: Seq<Event>, event: Event)
    ensures
        run(boot, events.push(event)) == run(boot, events).next(event),
        performed(boot, events.push(event)) == performed(boot, events).push(
            run(boot, events).spec_action(),
        ),
{
    assert(events.push(event).drop_last() =~= events);
}

impl Bootloader {
    /// Takes `events` one after the other, as [`Bootloader::step`] does,
    /// and returns the actions that were performed on the way: the one
    /// that was pending at each event. The action that is pending at the
    /// end is [`Bootloader::action`] of the state that is left.
    pub fn replay(&mut self, events: &[Event]) -> (actions: Vec<Action>)
        ensures
            *final(self) == run(*old(self), events@),
            actions@ == performed(*old(self), events@),
    {
        let ghost start = *self;
        let mut actions: Vec<Action> = Vec::new();
        let mut taken: usize = 0;
        while taken < events.len()
            invariant
                taken <= events.len(),
                *self == run(start, events@.take(taken as int)),
                actions@ == performed(start, events@.take(taken as int)),
            decreases events.len() - taken,
        {
            proof {
                lemma_run_push(start, events@.take(taken as int), events@[taken as int]);
                assert(events@.take(taken as int).push(events@[taken as int]) =~= events@.take(
                    taken + 1,
                ));
            }
            actions.push(self.action());
            self.step(events[taken]);
            taken = taken + 1;
        }
        proof {
            assert(events@.take(taken as int) =~= events@);
        }
        actions
    }
}

/// A sequence of events can be taken in two parts.
pub proof fn lemma_run_concat(boot: Bootloader, first: Seq<Event>, then: Seq<Event>)
    ensures
        run(boot, first + then) == run(run(boot, first), then),
        performed(boot, first + then) == performed(boot, first) + performed(
            run(boot, first),
            then,
        ),
    decreases then.len(),
{
    if then.len() == 0 {
        assert(first + then =~= first);
        assert(performed(boot, first) + Seq::<Action>::empty() =~= performed(boot, first));
    } else {
        lemma_run_concat(boot, first, then.drop_last());
        assert((first + then).drop_last() =~= first + then.drop_last());
        assert((first + then).last() == then.last());
        assert(performed(boot, first + then) =~= performed(boot, first) + performed(
            run(boot, first),
            then,
        ));
    }
}

/// The blocks that `actions` program, in order: each with its offset and
/// its bytes.
pub open spec fn programmed(actions: Seq<Action>) -> Seq<(u32, Packet)>
    decreases actions.len(),
{
    if actions.len() == 0 {
        Seq::empty()
    } else {
        match actions.last() {
            Action::WriteBlock { offset, data } => programmed(actions.drop_last()).push(
                (offset, data),
            ),
            _ => programmed(actions.drop_last()),
        }
    }
}

/// The value of the persistent flag after `actions`, where it held `flag`
/// before them.
pub open spec fn flag_after(flag: u32, actions: Seq<Action>) -> u32
    decreases actions.len(),
{
    if actions.len() == 0 {
        flag
    } else {
        match actions.last() {
            Action::WriteFlag(value) => value,
            _ => flag_after(flag, actions.drop_last()),
        }
    }
}

/// The half-period of the indicator after `actions`, where it was `millis`
/// before them.
pub open spec fn rate_after(millis: u64, actions: Seq<Action>) -> u64
    decreases actions.len(),
{
    if actions.len() == 0 {
        millis
    } else {
        match actions.last() {
            Action::SetIndicatorRate { millis: set } => set,
            _ => rate_after(millis, actions.drop_last()),
        }
    }
}

/// The blocks that two runs of actions program are those of the first,
/// then those of the second.
pub proof fn lemma_programmed_concat(first: Seq<Action>, then: Seq<Action>)
    ensures
        programmed(first + then) == programmed(first) + programmed(then),
    decreases then.len(),
{
    if then.len() == 0 {
        assert(first + then =~= first);
        assert(programmed(first) + programmed(then) =~= programmed(first));
    } else {
        lemma_programmed_concat(first, then.drop_last());
        assert((first + then).drop_last() =~= first + then.drop_last());
        assert((first + then).last() == then.last());
        assert(programmed(first + then) =~= programmed(first) + programmed(then));
    }
}

/// One more action programs one more block, or none.
pub proof fn lemma_programmed_push(actions: Seq<Action>, action: Action)
    ensures
        programmed(actions.push(action)) == (match action {
            Action::WriteBlock { offset, data } => programmed(actions).push((offset, data)),
            _ => programmed(actions),
        }),
{
    assert(actions.push(action).drop_last() =~= actions);
}

/// Whether none of `actions` belongs to the transfer protocol: nothing is
/// sent, erased or programmed.
pub open spec fn silent(actions: Seq<Action>) -> bool {
    forall|i: int|
        0 <= i < actions.len() ==> !((#[trigger] actions[i]) is Send) && !(actions[i] is Erase)
            && !(actions[i] is WriteBlock)
}

/// Where neither of two runs of actions belongs to the transfer protocol,
/// the two in a row do not either.
pub proof fn lemma_silent_concat(first: Seq<Action>, then: Seq<Action>)
    requires
        silent(first),
        silent(then),
    ensures
        silent(first + then),
{
    assert forall|i: int| 0 <= i < (first + then).len() implies !((#[trigger] (first + then)[i])
        is Send) && !((first + then)[i] is Erase) && !((first + then)[i] is WriteBlock) by {
        if i < first.len() {
            assert((first + then)[i] == first[i]);
        } else {
            assert((first + then)[i] == then[i - first.len()]);
        }
    }
}

/// The bootloader right after a reset.
pub open spec fn fresh(window: FlashWindow) -> Bootloader {
    Bootloader { window, phase: Phase::ReadFlag }
}

/// Whether the `k`-th of `writes` lies at the offset `start + 64 * k`, for
/// every `k`: the blocks follow one another from the start of the window,
/// without a gap and without a step back.
pub open spec fn in_order(window: FlashWindow, writes: Seq<(u32, Packet)>) -> bool {
    forall|k: int| 0 <= k < writes.len() ==> (#[trigger] writes[k]).0 == window.start() + 64 * k
}

/// How many blocks can have been programmed when the bootloader stands in
/// `phase`, and where a block that is about to be programmed goes. Phases
/// from which no block can follow any more are not bound.
pub open spec fn progress(window: FlashWindow, phase: Phase, written: nat) -> bool {
    match phase {
        Phase::ReadFlag
        | Phase::ClearFlag
        | Phase::BringUp
        | Phase::Settle
        | Phase::ArmDeadline
        | Phase::ProbeConnection
        | Phase::ProbePacket
        | Phase::IndicateTransfer
        | Phase::AnnounceConnection
        | Phase::Announce
        | Phase::SizeConnection
        | Phase::SizePacket
        | Phase::Erase { .. }
        | Phase::Accept { .. }
        | Phase::Reject { .. } => written == 0,
        Phase::BlockConnection { index, .. } | Phase::BlockPacket { index, .. } => written
            == index,
        Phase::Program { index, offset, .. } => written == index && offset == block_offset(
            window,
            index,
        ),
        Phase::EchoConnection { index, .. }
        | Phase::Echo { index, .. }
        | Phase::Terminate { index, .. } => written == index + 1,
        Phase::ReadVectors
        | Phase::Handoff { .. }
        | Phase::IndicateReboot
        | Phase::MarkReboot
        | Phase::Reset
        | Phase::Linger
        | Phase::Halt
        | Phase::Abort => true,
    }
}

/// Blocks are programmed in order, whatever happens.
///
/// For every window and every sequence of events after a reset, be they
/// successes, failures, timeouts or outcomes that make no sense: the `k`-th
/// block that the device programs goes to the offset `start + 64 * k`. The
/// device never programs a block out of turn, never one twice, and never
/// one below the start of the window.
pub proof fn lemma_blocks_are_programmed_in_order(window: FlashWindow, events: Seq<Event>)
    ensures
        in_order(window, programmed(performed(fresh(window), events))),
        progress(
            window,
            run(fresh(window), events).phase,
            programmed(performed(fresh(window), events)).len(),
        ),
        run(fresh(window), events).window == window,
    decreases events.len(),
{
    if events.len() > 0 {
        let before = events.drop_last();
        lemma_blocks_are_programmed_in_order(window, before);
        let state = run(fresh(window), before);
        let actions = performed(fresh(window), before);
        lemma_programmed_push(actions, state.spec_action());
        assert(performed(fresh(window), events) == actions.push(state.spec_action()));
    }
}

} // verus!
