//! The step counter.
//!
//! The pedometer watches the strength of the acceleration, sample by
//! sample. Around a threshold lies a band. A sample above the band raises
//! the level, one below the band lowers it, one inside the band leaves it as
//! it is; each time the level rises, a step is counted.
//!
//! The threshold follows the signal in batches: samples join a batch until
//! it is full, and the sample after that sets the threshold to the mean of
//! the batch and opens a new one. The pedometer keeps the count of the
//! batch. Sum, threshold and band are kept by whoever measures the
//! acceleration, who asks `recalibrates` before each sample and reports
//! with a `Reading` how the sample lies to the band.

use vstd::prelude::*;

verus! {

/// The number of samples in a full batch.
pub const SAMPLE_COUNT_LIMIT: i32 = 50;

/// How a sample lies to the band around the threshold.
#[derive(Debug, Clone, Copy, PartialEq, Eq, Structural)]
pub struct Reading {
    /// The sample is greater than threshold plus hysteresis.
    pub above: bool,
    /// The sample is less than threshold minus hysteresis.
    pub below: bool,
}

/// The count of the batch, the count of steps, and the level now and at the
/// sample before.
pub struct Pedometer {
    pub sample_count: i32,
    pub step_count: i32,
    pub state: bool,
    pub last_state: bool,
}

/// A pedometer with counts that have no upper limit.
pub struct StepCounter {
    pub sample_count: int,
    pub step_count: int,
    pub state: bool,
    pub last_state: bool,
}

impl StepCounter {
    /// Whether the batch is full, so that the next sample closes it.
    pub open spec fn recalibrates(self) -> bool {
        self.sample_count >= SAMPLE_COUNT_LIMIT
    }

    /// The counter after a sample has joined or closed the batch.
    pub open spec fn sampled(self) -> StepCounter {
        StepCounter {
            sample_count: if self.recalibrates() {
                0
            } else {
                self.sample_count + 1
            },
            ..self
        }
    }

    /// The counter after the level has followed a sample.
    pub open spec fn leveled(self, reading: Reading) -> StepCounter {
        StepCounter {
            state: if reading.above {
                true
            } else if reading.below {
                false
            } else {
                self.state
            },
            ..self
        }
    }

    /// Whether the level has risen since steps were last counted.
    pub open spec fn rising(self) -> bool {
        !self.last_state && self.state
    }

    /// The counter after the level was compared with the one seen last.
    pub open spec fn counted(self) -> StepCounter {
        StepCounter {
            step_count: if self.rising() {
                self.step_count + 1
            } else {
                self.step_count
            },
            last_state: self.state,
            ..self
        }
    }

    /// The counter after one sample.
    pub open spec fn updated(self, reading: Reading) -> StepCounter {
        self.sampled().leveled(reading).counted()
    }

    /// The count of the batch after `n` samples.
    pub open spec fn sample_count_after(self, n: nat) -> int
        decreases n,
    {
        if n == 0 {
            self.sample_count
        } else {
            (StepCounter { sample_count: self.sample_count_after((n - 1) as nat), ..self })
                .sampled().sample_count
        }
    }
}

/// A sample never takes a step back, and adds one step at most: when the
/// level rises.
pub proof fn lemma_update_counts_rises(counter: StepCounter, reading: Reading)
    ensures
        counter.step_count <= counter.updated(reading).step_count <= counter.step_count + 1,
        counter.updated(reading).step_count == counter.step_count + 1
            <==> counter.leveled(reading).rising(),
        counter.updated(reading).last_state == counter.updated(reading).state,
{
}

/// Once a sample was taken, a step is counted when a sample above the band
/// meets a low level, and at no other time. A sample inside the band counts
/// no step.
pub proof fn lemma_step_needs_crossing(counter: StepCounter, reading: Reading)
    requires
        counter.last_state == counter.state,
    ensures
        counter.updated(reading).step_count == counter.step_count + 1
            <==> !counter.state && reading.above,
        !reading.above && !reading.below ==> counter.updated(reading).state == counter.state,
{
}

/// The sample that follows a counted step counts none, whatever it is: the
/// level has to fall before it can rise again.
pub proof fn lemma_no_step_while_high(counter: StepCounter, first: Reading, second: Reading)
    requires
        counter.updated(first).step_count == counter.step_count + 1,
    ensures
        counter.updated(first).updated(second).step_count == counter.updated(first).step_count,
{
}

/// The count of the batch goes round: a full batch and the sample that
/// closes it make one turn.
pub proof fn lemma_batches_repeat(counter: StepCounter, n: nat)
    requires
        0 <= counter.sample_count <= SAMPLE_COUNT_LIMIT,
    ensures
        counter.sample_count_after(n) == (counter.sample_count + n) % (SAMPLE_COUNT_LIMIT + 1),
    decreases n,
{
    if n > 0 {
        lemma_batches_repeat(counter, (n - 1) as nat);
    }
}

/// A pedometer that has seen no sample sets its threshold with every
/// sample that follows a full batch, and with no other.
pub proof fn lemma_recalibrates_after_full_batch(counter: StepCounter, n: nat)
    requires
        counter.sample_count == 0,
    ensures
        (StepCounter { sample_count: counter.sample_count_after(n), ..counter }).recalibrates()
            <==> n % (SAMPLE_COUNT_LIMIT + 1) as nat == SAMPLE_COUNT_LIMIT,
{
    lemma_batches_repeat(counter, n);
}

impl View for Pedometer {
    type V = StepCounter;

    open spec fn view(&self) -> StepCounter {
        StepCounter {
            sample_count: self.sample_count as int,
            step_count: self.step_count as int,
            state: self.state,
            last_state: self.last_state,
        }
    }
}

impl Default for Pedometer {
    fn default() -> (pedometer: Pedometer)
        ensures
            pedometer@ == (StepCounter {
                sample_count: 0,
                step_count: 0,
                state: false,
                last_state: false,
            }),
    {
        Pedometer::new()
    }
}

impl Pedometer {
    /// A pedometer that has seen no sample and counted no step.
    pub fn new() -> (pedometer: Pedometer)
        ensures
            pedometer@ == (StepCounter {
                sample_count: 0,
                step_count: 0,
                state: false,
                last_state: false,
            }),
    {
        Pedometer { sample_count: 0, step_count: 0, state: false, last_state: false }
    }

    /// Whether the next sample closes the batch, and so sets the threshold
    /// to the mean of the `sample_count` samples in it.
    pub fn recalibrates(&self) -> (due: bool)
        ensures
            due == self@.recalibrates(),
    {
        self.sample_count >= SAMPLE_COUNT_LIMIT
    }

    /// Takes one sample: counts it for the batch, lets the level follow it,
    /// and counts a step if the level has risen.
    pub fn update(&mut self, reading: Reading)
        requires
            old(self)@.leveled(reading).rising() ==> old(self)@.step_count < i32::MAX,
        ensures
            final(self)@ == old(self)@.updated(reading),
            final(self)@.step_count >= old(self)@.step_count,
    {
        self.set_threshold();
        self.set_state(reading);
        self.set_step_count();
    }

    /// Counts a sample for the batch, or opens a new batch if this one is
    /// full. Returns whether it was full.
    pub fn set_threshold(&mut self) -> (recalibrated: bool)
        ensures
            final(self)@ == old(self)@.sampled(),
            recalibrated == old(self)@.recalibrates(),
    {
        if self.sample_count < SAMPLE_COUNT_LIMIT {
            self.sample_count += 1;
            false
        } else {
            self.sample_count = 0;
            true
        }
    }

    /// Lets the level follow a sample.
    pub fn set_state(&mut self, reading: Reading)
        ensures
            final(self)@ == old(self)@.leveled(reading),
    {
        if reading.above {
            self.state = true
        } else if reading.below {
            self.state = false
        }
    }

    /// Counts a step if the level has risen since the last call.
    pub fn set_step_count(&mut self)
        requires
            old(self)@.rising() ==> old(self)@.step_count < i32::MAX,
        ensures
            final(self)@ == old(self)@.counted(),
    {
        if !self.last_state && self.state {
            self.step_count += 1;
            self.last_state = self.state;
        } else if self.last_state && !self.state {
            self.last_state = self.state;
        }
    }
}

} // verus!
