use vstd::prelude::*;

verus! {

/// What one sample does to a frequency glide.
#[derive(PartialEq, Eq, Structural, Clone, Copy, Debug)]
pub enum GlideTick {
    /// No glide is running: the frequency stays as it is.
    Idle,
    /// The frequency takes one more linear step towards the target.
    Stepping,
    /// The last step: the frequency becomes the target exactly.
    Arrived,
}

/// The remaining count after one sample, and what that sample does.
pub open spec fn tick_outcome(left: u32) -> (u32, GlideTick) {
    if left == 0 {
        (0, GlideTick::Idle)
    } else if left == 1 {
        (0, GlideTick::Arrived)
    } else {
        ((left - 1) as u32, GlideTick::Stepping)
    }
}

/// What `n` samples in a row do, starting with `left` samples of glide to go.
pub open spec fn ticks(left: u32, n: nat) -> Seq<GlideTick>
    decreases n,
{
    if n == 0 {
        Seq::empty()
    } else {
        seq![tick_outcome(left).1] + ticks(tick_outcome(left).0, (n - 1) as nat)
    }
}

/// The sample counter of an oscillator's frequency glide: how many samples
/// are left before the frequency must equal its target.
pub struct Glide {
    left: u32,
}

impl View for Glide {
    type V = u32;

    closed spec fn view(&self) -> u32 {
        self.left
    }
}

impl Glide {
    /// A counter with no glide running.
    pub fn new() -> (r: Self)
        ensures
            r@ == 0,
    {
        Glide { left: 0 }
    }

    /// Samples left in the running glide (0 when none runs).
    pub fn remaining(&self) -> (r: u32)
        ensures
            r == self@,
    {
        self.left
    }

    /// Starts a glide over `samples` samples; 0 means the change is
    /// immediate and no glide runs.
    pub fn begin(&mut self, samples: u32)
        ensures
            final(self)@ == samples,
    {
        self.left = samples;
    }

    /// Counts one sample of the glide and says what it does to the
    /// frequency.
    pub fn tick(&mut self) -> (r: GlideTick)
        ensures
            (final(self)@, r) == tick_outcome(old(self)@),
    {
        if self.left == 0 {
            GlideTick::Idle
        } else {
            self.left = self.left - 1;
            if self.left == 0 {
                GlideTick::Arrived
            } else {
                GlideTick::Stepping
            }
        }
    }
}

/// A glide begun over `k > 0` samples reaches its target on exactly the
/// `k`-th sample: the `k - 1` before it step, the `k`-th arrives, and every
/// later one leaves the frequency alone.
pub proof fn lemma_glide_arrives_after_exactly(k: u32, extra: nat)
    requires
        k > 0,
    ensures
        ticks(k, k as nat + extra) =~= Seq::new((k - 1) as nat, |i: int| GlideTick::Stepping).push(
            GlideTick::Arrived,
        ) + Seq::new(extra, |i: int| GlideTick::Idle),
    decreases k,
{
    if k == 1 {
        lemma_idle_stays(extra);
        assert(ticks(1, 1 + extra) == seq![GlideTick::Arrived] + ticks(0, extra));
        assert(Seq::new(0, |i: int| GlideTick::Stepping).push(GlideTick::Arrived) =~= seq![
            GlideTick::Arrived,
        ]);
    } else {
        lemma_glide_arrives_after_exactly((k - 1) as u32, extra);
        assert(ticks(k, k as nat + extra) == seq![GlideTick::Stepping] + ticks(
            (k - 1) as u32,
            (k - 1) as nat + extra,
        ));
        assert(seq![GlideTick::Stepping] + Seq::new((k - 2) as nat, |i: int| GlideTick::Stepping)
            =~= Seq::new((k - 1) as nat, |i: int| GlideTick::Stepping));
    }
}

proof fn lemma_idle_stays(n: nat)
    ensures
        ticks(0, n) =~= Seq::new(n, |i: int| GlideTick::Idle),
    decreases n,
{
    if n > 0 {
        lemma_idle_stays((n - 1) as nat);
    }
}

} // verus!
