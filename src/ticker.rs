use vstd::prelude::*;

verus! {

/// What the ticking task does on one tick of its clock.
pub enum TickAction {
    /// Advance the engine's interruption counter, then wait for the next tick.
    AdvanceEpoch,
    /// The deadline has been delivered in full: stop ticking.
    Stop,
}

/// How many ticks a ticker has delivered, out of how many.
pub struct TickerView {
    pub advanced: nat,
    pub total: nat,
}

/// The decisions of the deadline clock of one execution: it advances the
/// interruption counter once per tick, exactly as many times as the deadline
/// has ticks, and then stops.
pub struct Ticker {
    advanced: u64,
    total: u64,
}

impl View for Ticker {
    type V = TickerView;

    closed spec fn view(&self) -> TickerView {
        TickerView { advanced: self.advanced as nat, total: self.total as nat }
    }
}

impl Ticker {
    pub closed spec fn wf(&self) -> bool {
        self.advanced <= self.total
    }

    /// A ticker for a deadline of `ticks` ticks.
    pub fn new(ticks: u64) -> (r: Ticker)
        ensures
            r.wf(),
            r@ == (TickerView { advanced: 0, total: ticks as nat }),
    {
        Ticker { advanced: 0, total: ticks }
    }

    /// Decides what to do on the clock's next tick.
    pub fn on_tick(&mut self) -> (r: TickAction)
        requires
            old(self).wf(),
        ensures
            final(self).wf(),
            final(self)@.total == old(self)@.total,
            old(self)@.advanced < old(self)@.total ==> r is AdvanceEpoch && final(self)@.advanced
                == old(self)@.advanced + 1,
            old(self)@.advanced >= old(self)@.total ==> r is Stop && final(self)@ == old(self)@,
    {
        if self.advanced < self.total {
            self.advanced = self.advanced + 1;
            TickAction::AdvanceEpoch
        } else {
            TickAction::Stop
        }
    }

    /// Whether the ticker has delivered its whole deadline.
    pub fn is_done(&self) -> (r: bool)
        requires
            self.wf(),
        ensures
            r == (self@.advanced == self@.total),
    {
        self.advanced == self.total
    }
}

} // verus!
