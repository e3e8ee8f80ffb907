use vstd::prelude::*;
use vstd::arithmetic::div_mod::{lemma_div_by_multiple, lemma_div_is_ordered};

verus! {

/// Smallest sample of a non-empty sequence.
pub open spec fn seq_min(s: Seq<i64>) -> int
    decreases s.len(),
{
    if s.len() <= 1 {
        s[0] as int
    } else if (s.last() as int) < seq_min(s.drop_last()) {
        s.last() as int
    } else {
        seq_min(s.drop_last())
    }
}

/// Largest sample of a non-empty sequence.
pub open spec fn seq_max(s: Seq<i64>) -> int
    decreases s.len(),
{
    if s.len() <= 1 {
        s[0] as int
    } else if (s.last() as int) > seq_max(s.drop_last()) {
        s.last() as int
    } else {
        seq_max(s.drop_last())
    }
}

pub open spec fn seq_sum(s: Seq<i64>) -> int
    decreases s.len(),
{
    if s.len() == 0 {
        0
    } else {
        seq_sum(s.drop_last()) + s.last()
    }
}

/// Integer division that rounds toward zero, as a mean is truncated.
pub open spec fn div_toward_zero(a: int, b: int) -> int {
    if a >= 0 {
        a / b
    } else {
        -((-a) / b)
    }
}

/// Minimum, mean (rounded toward zero) and maximum of the temperatures sampled
/// during a session, in thousandths of a degree Celsius.
#[derive(Clone, Copy, Debug, PartialEq, Eq, Structural)]
pub struct ThermalSummary {
    pub min: i64,
    pub average: i64,
    pub max: i64,
}

/// The summary a non-empty sequence of samples has; none for no samples.
pub open spec fn summary_of(s: Seq<i64>) -> Option<ThermalSummary> {
    if s.len() == 0 {
        None
    } else {
        Some(
            ThermalSummary {
                min: seq_min(s) as i64,
                average: div_toward_zero(seq_sum(s), s.len() as int) as i64,
                max: seq_max(s) as i64,
            },
        )
    }
}

/// Running aggregates of the temperature samples a monitor has taken. Its view
/// is the sequence of samples, oldest first; the individual samples are not kept.
pub struct ThermalStats {
    count: u64,
    sum: i128,
    min: i64,
    max: i64,
    samples: Ghost<Seq<i64>>,
}

impl View for ThermalStats {
    type V = Seq<i64>;

    closed spec fn view(&self) -> Seq<i64> {
        self.samples@
    }
}

proof fn lemma_quotient_at_most(x: int, c: int, k: int)
    requires
        0 <= x <= k * c,
        0 < c,
        0 <= k,
    ensures
        x / c <= k,
{
    lemma_div_is_ordered(x, k * c, c);
    lemma_div_by_multiple(k, c);
}

impl ThermalStats {
    #[verifier::type_invariant]
    spec fn inv(self) -> bool {
        &&& self.count == self.samples@.len()
        &&& self.sum == seq_sum(self.samples@)
        &&& self.count * i64::MIN <= self.sum <= self.count * i64::MAX
        &&& self.count > 0 ==> self.min == seq_min(self.samples@) && self.max == seq_max(self.samples@)
    }

    /// Aggregates over no samples.
    pub fn new() -> (r: ThermalStats)
        ensures
            r@.len() == 0,
    {
        ThermalStats { count: 0, sum: 0, min: 0, max: 0, samples: Ghost(Seq::empty()) }
    }

    pub fn sample_count(&self) -> (r: u64)
        ensures
            r == self@.len(),
    {
        proof {
            use_type_invariant(self);
        }
        self.count
    }

    /// Folds one sample into the aggregates.
    pub fn record(&mut self, sample: i64)
        requires
            old(self)@.len() < u64::MAX,
        ensures
            final(self)@ == old(self)@.push(sample),
    {
        proof {
            use_type_invariant(&*self);
        }
        let ghost samples = self.samples@.push(sample);
        assert(samples.drop_last() =~= self.samples@);
        let min = if self.count == 0 || sample < self.min {
            sample
        } else {
            self.min
        };
        let max = if self.count == 0 || sample > self.max {
            sample
        } else {
            self.max
        };
        *self = ThermalStats {
            count: self.count + 1,
            sum: self.sum + sample as i128,
            min,
            max,
            samples: Ghost(samples),
        };
    }

    /// Minimum, mean and maximum of the samples; `None` when none was taken.
    pub fn summary(&self) -> (r: Option<ThermalSummary>)
        ensures
            r == summary_of(self@),
    {
        proof {
            use_type_invariant(self);
        }
        if self.count == 0 {
            return None;
        }
        let average: i64 = if self.sum >= 0 {
            proof {
                lemma_quotient_at_most(self.sum as int, self.count as int, i64::MAX as int);
            }
            (self.sum as u128 / self.count as u128) as i64
        } else {
            proof {
                lemma_quotient_at_most(-self.sum, self.count as int, 0x8000_0000_0000_0000int);
            }
            let q = (-self.sum) as u128 / self.count as u128;
            (-(q as i128)) as i64
        };
        Some(ThermalSummary { min: self.min, average, max: self.max })
    }
}

} // verus!
