use vstd::prelude::*;

verus! {

/// The frozen target network is refreshed from the live network after every
/// this many training steps.
pub const TARGET_UPDATE_INTERVAL: u32 = 20;

/// Counts a company's training steps and says when the target network is due
/// for a refresh.
pub struct TrainingSteps {
    pub steps: u32,
}

impl TrainingSteps {
    /// A counter that has seen no training step yet.
    pub fn new() -> (counter: Self)
        ensures
            counter.steps == 0,
    {
        TrainingSteps { steps: 0 }
    }

    /// Counts one training step; returns whether the target network must now
    /// be refreshed.
    pub fn record_step(&mut self) -> (refresh_target: bool)
        requires
            old(self).steps < u32::MAX,
        ensures
            final(self).steps == old(self).steps + 1,
            refresh_target == (final(self).steps % TARGET_UPDATE_INTERVAL == 0),
    {
        self.steps = self.steps + 1;
        self.steps % TARGET_UPDATE_INTERVAL == 0
    }
}

/// Number of target refreshes among the first `steps` training steps, as
/// `record_step` reports them one step at a time.
pub open spec fn spec_refreshes(steps: nat) -> nat
    decreases steps,
{
    if steps == 0 {
        0
    } else {
        spec_refreshes((steps - 1) as nat) + if steps % (TARGET_UPDATE_INTERVAL as nat) == 0 {
            1nat
        } else {
            0nat
        }
    }
}

/// The target network is refreshed once every `TARGET_UPDATE_INTERVAL`
/// training steps: after `steps` steps it has been refreshed `steps / 20` times.
pub proof fn lemma_refresh_period(steps: nat)
    ensures
        spec_refreshes(steps) == steps / (TARGET_UPDATE_INTERVAL as nat),
    decreases steps,
{
    if steps > 0 {
        lemma_refresh_period((steps - 1) as nat);
        let n = steps as int;
        assert((n - 1) / 20 + (if n % 20 == 0 { 1int } else { 0int }) == n / 20) by (nonlinear_arith)
            requires n >= 1;
    }
}

} // verus!
