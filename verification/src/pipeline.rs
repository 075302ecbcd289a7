//! The sampling pipeline's control logic.
//!
//! The sampling loop itself runs on a dedicated background context —
//! its refreshes block on operating-system queries and its settling
//! delay sleeps — so the loop body lives with the unverified shell.
//! Everything the shell decides, it decides by calling into this
//! module: the sampler protocol dictates the order of refreshes and
//! the settling delay, and the loop controller dictates when the loop
//! must stop. The one termination condition is a hand-off failure:
//! the consumer dropped its end of the channel, which is normal
//! shutdown, never an error.

use vstd::prelude::*;

verus! {

/// Milliseconds between the two refreshes of one sampling cycle. CPU
/// usage is computed from the difference of two readings, so a cycle
/// must refresh, settle, and refresh again; a single refresh would
/// report a meaningless zero.
pub const SETTLE_MS: u64 = 200;

/// Default period of the sampling loop, in milliseconds.
pub const DEFAULT_PERIOD_MS: u64 = 1000;

/// Phases of one sampling cycle.
#[derive(Clone, Copy, Debug, PartialEq, Eq, Structural)]
pub enum SamplerPhase {
    FirstRefresh,
    Settling,
    SecondRefresh,
    Extract,
}

/// What the driver of a sampling cycle must do next.
#[derive(Clone, Copy, Debug, PartialEq, Eq, Structural)]
pub enum SamplerAction {
    /// Re-read every metric category from the operating system.
    Refresh,
    /// Pause this many milliseconds so the CPU counters accumulate.
    Wait(u64),
    /// Assemble the snapshot from the now-current readings.
    Extract,
}

/// The sampler protocol: refresh, settle, refresh again, extract —
/// in that order, every cycle.
pub struct SamplerProtocol {
    pub phase: SamplerPhase,
}

impl SamplerProtocol {
    /// A protocol at the start of a cycle.
    pub fn new() -> (r: Self)
        ensures
            r.phase == SamplerPhase::FirstRefresh,
    {
        SamplerProtocol { phase: SamplerPhase::FirstRefresh }
    }

    /// The next action of the cycle. Each cycle is exactly: a
    /// refresh, a settling pause of [`SETTLE_MS`], a second refresh,
    /// and the extraction; then the next cycle begins.
    pub fn next_action(&mut self) -> (a: SamplerAction)
        ensures
            old(self).phase == SamplerPhase::FirstRefresh ==> a == SamplerAction::Refresh
                && final(self).phase == SamplerPhase::Settling,
            old(self).phase == SamplerPhase::Settling ==> a == SamplerAction::Wait(SETTLE_MS)
                && final(self).phase == SamplerPhase::SecondRefresh,
            old(self).phase == SamplerPhase::SecondRefresh ==> a == SamplerAction::Refresh
                && final(self).phase == SamplerPhase::Extract,
            old(self).phase == SamplerPhase::Extract ==> a == SamplerAction::Extract
                && final(self).phase == SamplerPhase::FirstRefresh,
    {
        match self.phase {
            SamplerPhase::FirstRefresh => {
                self.phase = SamplerPhase::Settling;
                SamplerAction::Refresh
            },
            SamplerPhase::Settling => {
                self.phase = SamplerPhase::SecondRefresh;
                SamplerAction::Wait(SETTLE_MS)
            },
            SamplerPhase::SecondRefresh => {
                self.phase = SamplerPhase::Extract;
                SamplerAction::Refresh
            },
            SamplerPhase::Extract => {
                self.phase = SamplerPhase::FirstRefresh;
                SamplerAction::Extract
            },
        }
    }
}

/// What became of one attempt to hand a snapshot to the consumer.
#[derive(Clone, Copy, Debug, PartialEq, Eq, Structural)]
pub enum SendOutcome {
    /// The snapshot was queued for the consumer.
    Delivered,
    /// The consumer dropped its end of the channel.
    Disconnected,
}

/// What the loop does next: sleep out the period and run another
/// cycle, or exit its background context.
#[derive(Clone, Copy, Debug, PartialEq, Eq, Structural)]
pub enum LoopControl {
    Continue,
    Stop,
}

/// The sampling-loop controller: its period, and whether it has
/// stopped for good.
pub struct SamplingLoop {
    pub period_ms: u64,
    pub stopped: bool,
}

impl SamplingLoop {
    /// A running controller with the given period.
    pub fn new(period_ms: u64) -> (r: Self)
        ensures
            r.period_ms == period_ms,
            !r.stopped,
    {
        SamplingLoop { period_ms, stopped: false }
    }

    /// Whether another sampling cycle may run. The driver consults
    /// this before every cycle; once it is false, no further metrics
    /// source call is made.
    pub fn may_sample(&self) -> (r: bool)
        ensures
            r == !self.stopped,
    {
        !self.stopped
    }

    /// Digests the outcome of one hand-off attempt: the loop stops
    /// if, and only if, the consumer has gone away (or it had already
    /// stopped); a delivered snapshot keeps it running.
    pub fn on_send(&mut self, outcome: SendOutcome) -> (c: LoopControl)
        ensures
            final(self).period_ms == old(self).period_ms,
            final(self).stopped == (old(self).stopped || outcome == SendOutcome::Disconnected),
            c == LoopControl::Stop <==> final(self).stopped,
    {
        match outcome {
            SendOutcome::Delivered => {
                if self.stopped {
                    LoopControl::Stop
                } else {
                    LoopControl::Continue
                }
            },
            SendOutcome::Disconnected => {
                self.stopped = true;
                LoopControl::Stop
            },
        }
    }
}

/// Whether the loop has stopped before cycle `n`, given the outcomes
/// of the hand-off attempts of cycles `0 .. n`.
pub open spec fn stopped_before(outcomes: Seq<SendOutcome>, n: int) -> bool
    decreases n,
{
    if n <= 0 {
        false
    } else {
        stopped_before(outcomes, n - 1) || outcomes[n - 1] == SendOutcome::Disconnected
    }
}

/// Cycle `n` runs — and polls the metrics source — exactly when the
/// loop has not stopped before it.
pub open spec fn samples_at(outcomes: Seq<SendOutcome>, n: int) -> bool {
    !stopped_before(outcomes, n)
}

/// A stopped loop never resumes.
pub proof fn lemma_stopped_is_permanent(outcomes: Seq<SendOutcome>, m: int, n: int)
    requires
        0 <= m <= n,
        stopped_before(outcomes, m),
    ensures
        stopped_before(outcomes, n),
    decreases n - m,
{
    if m < n {
        lemma_stopped_is_permanent(outcomes, m, n - 1);
    }
}

/// Once the hand-off of cycle `i` finds the consumer gone, no later
/// cycle runs: the loop terminates and the metrics source is polled
/// no further.
pub proof fn lemma_no_sampling_after_disconnect(outcomes: Seq<SendOutcome>, i: int, j: int)
    requires
        0 <= i < j,
        outcomes[i] == SendOutcome::Disconnected,
    ensures
        !samples_at(outcomes, j),
{
    assert(stopped_before(outcomes, i + 1));
    lemma_stopped_is_permanent(outcomes, i + 1, j);
}

/// The exec controller walks the trace model: digesting outcome `n`
/// from a state that matches `stopped_before(outcomes, n)` leaves a
/// state that matches `stopped_before(outcomes, n + 1)`.
pub proof fn lemma_controller_follows_trace(
    outcomes: Seq<SendOutcome>,
    n: int,
    before: SamplingLoop,
    after: SamplingLoop,
)
    requires
        0 <= n < outcomes.len(),
        before.stopped == stopped_before(outcomes, n),
        after.stopped == (before.stopped || outcomes[n] == SendOutcome::Disconnected),
    ensures
        after.stopped == stopped_before(outcomes, n + 1),
{
}

} // verus!
