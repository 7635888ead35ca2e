//! The status indicator: an output that blinks for as long as the
//! bootloader runs, at a rate that tells the phase.

use vstd::prelude::*;

verus! {

/// Level of the indicator output.
#[derive(Clone, Copy, Debug, PartialEq, Eq, Structural)]
pub enum Level {
    High,
    Low,
}

impl Level {
    /// The other level.
    pub open spec fn spec_toggled(self) -> Level {
        match self {
            Level::High => Level::Low,
            Level::Low => Level::High,
        }
    }

    /// The other level.
    #[verifier::when_used_as_spec(spec_toggled)]
    pub fn toggled(self) -> (other: Level)
        ensures
            other == self.spec_toggled(),
    {
        match self {
            Level::High => Level::Low,
            Level::Low => Level::High,
        }
    }
}

/// One half-period of the blinking: the level to drive and the time to hold
/// it, in milliseconds.
#[derive(Clone, Copy, Debug, PartialEq, Eq, Structural)]
pub struct HalfPeriod {
    pub level: Level,
    pub millis: u64,
}

/// The indicator between two half-periods. It keeps nothing but the level
/// that comes next.
#[derive(Clone, Copy, Debug, PartialEq, Eq, Structural)]
pub struct Indicator {
    /// The level of the next half-period.
    pub next: Level,
}

impl Indicator {
    /// An indicator that starts with the output high.
    pub fn new() -> (indicator: Self)
        ensures
            indicator.next == Level::High,
    {
        Indicator { next: Level::High }
    }

    /// The half-period that comes next where the rate is `rate_millis`.
    pub open spec fn half(self, rate_millis: u64) -> HalfPeriod {
        HalfPeriod { level: self.next, millis: rate_millis }
    }

    /// The indicator one half-period later.
    pub open spec fn ticked(self) -> Indicator {
        Indicator { next: self.next.spec_toggled() }
    }

    /// The next half-period, given the rate as it is read now: the level
    /// alternates, and the hold time is the rate of this very moment.
    pub fn tick(&mut self, rate_millis: u64) -> (half: HalfPeriod)
        ensures
            half == old(self).half(rate_millis),
            *final(self) == old(self).ticked(),
    {
        let level = self.next;
        self.next = level.toggled();
        HalfPeriod { level, millis: rate_millis }
    }
}

/// The indicator after `count` half-periods.
pub open spec fn after_ticks(indicator: Indicator, count: nat) -> Indicator
    decreases count,
{
    if count == 0 {
        indicator
    } else {
        after_ticks(indicator, (count - 1) as nat).ticked()
    }
}

/// The half-periods that an indicator goes through while the rate is read
/// once before each of them and found to be `rates`, in this order.
pub open spec fn blink(indicator: Indicator, rates: Seq<u64>) -> Seq<HalfPeriod>
    decreases rates.len(),
{
    if rates.len() == 0 {
        Seq::empty()
    } else {
        blink(indicator, rates.drop_last()).push(
            after_ticks(indicator, (rates.len() - 1) as nat).half(rates.last()),
        )
    }
}

/// What half-period `k` is made of.
pub proof fn lemma_blink_index(indicator: Indicator, rates: Seq<u64>)
    ensures
        blink(indicator, rates).len() == rates.len(),
        forall|k: int|
            0 <= k < rates.len() ==> (#[trigger] blink(indicator, rates)[k]) == after_ticks(
                indicator,
                k as nat,
            ).half(rates[k]),
    decreases rates.len(),
{
    if rates.len() > 0 {
        lemma_blink_index(indicator, rates.drop_last());
    }
}

/// The indicator alternates, and a change of rate shows in the very next
/// half-period.
///
/// For every indicator and every sequence of rates, one read before each
/// half-period: the first half-period has the level that the indicator
/// holds ready, every later one the other level than the one before it,
/// and half-period `k` lasts as long as rate `k` says, whatever the rates
/// before it were.
pub proof fn lemma_blink(indicator: Indicator, rates: Seq<u64>)
    ensures
        blink(indicator, rates).len() == rates.len(),
        rates.len() > 0 ==> blink(indicator, rates)[0].level == indicator.next,
        forall|k: int|
            0 < k < rates.len() ==> (#[trigger] blink(indicator, rates)[k]).level == blink(
                indicator,
                rates,
            )[k - 1].level.spec_toggled(),
        forall|k: int|
            0 <= k < rates.len() ==> (#[trigger] blink(indicator, rates)[k]).millis == rates[k],
{
    lemma_blink_index(indicator, rates);
    let halves = blink(indicator, rates);
    assert forall|k: int| 0 < k < rates.len() implies (#[trigger] halves[k]).level == halves[k
        - 1].level.spec_toggled() by {
        assert(halves[k] == after_ticks(indicator, k as nat).half(rates[k]));
        assert(halves[k - 1] == after_ticks(indicator, (k - 1) as nat).half(rates[k - 1]));
    }
}

} // verus!
