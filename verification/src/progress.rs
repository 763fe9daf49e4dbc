//! Progress of a run as an exact fraction of its stage sequence.

use vstd::prelude::*;

verus! {

/// The share of a stage sequence that lies behind a run: `done` steps out of `total`.
#[derive(Clone, Copy, Debug, PartialEq, Eq, Structural)]
pub struct Progress {
    pub done: usize,
    pub total: usize,
}

/// The fraction reached at stage `index` of `count` stages: `index / (count - 1)`,
/// and the whole where the sequence has at most one stage.
pub open spec fn progress_at(index: nat, count: nat) -> Progress {
    if count <= 1 {
        Progress { done: 1, total: 1 }
    } else {
        Progress { done: index as usize, total: (count - 1) as usize }
    }
}

/// A fraction as a whole percentage, rounded down. A fraction that is not
/// below one, or has no steps at all, is 100.
pub open spec fn percent_of(progress: Progress) -> nat {
    if progress.total == 0 || progress.done >= progress.total {
        100
    } else {
        ((progress.done * 100) as int / (progress.total as int)) as nat
    }
}

impl Progress {
    /// Whether the run has reached the end of its stage sequence.
    pub fn is_complete(&self) -> (complete: bool)
        ensures
            complete == (self.total == 0 || self.done >= self.total),
    {
        self.total == 0 || self.done >= self.total
    }

    /// The progress as a whole percentage, rounded down.
    pub fn percent(&self) -> (percent: u8)
        ensures
            percent == percent_of(*self),
            percent <= 100,
            percent == 100 <==> (self.total == 0 || self.done >= self.total),
    {
        if self.total == 0 || self.done >= self.total {
            100
        } else {
            let scaled: u128 = (self.done as u128) * 100;
            let percent: u128 = scaled / (self.total as u128);
            assert(percent < 100) by (nonlinear_arith)
                requires
                    percent == scaled / (self.total as u128),
                    scaled == self.done * 100,
                    self.done < self.total,
                    self.total > 0,
            ;
            percent as u8
        }
    }
}

/// The progress at stage `index` of a sequence of `count` stages.
pub fn stage_progress(index: usize, count: usize) -> (progress: Progress)
    requires
        index < count,
    ensures
        progress == progress_at(index as nat, count as nat),
{
    if count <= 1 {
        Progress { done: 1, total: 1 }
    } else {
        Progress { done: index, total: count - 1 }
    }
}

/// The percentage at stage `index` of `count` stages is `index * 100 / (count - 1)`
/// rounded down, and 100 where the sequence has one stage. The first stage
/// of a longer sequence is at 0, the last stage of any sequence at 100.
pub proof fn lemma_percent_formula(index: nat, count: nat)
    requires
        index < count,
        count <= usize::MAX,
    ensures
        count == 1 ==> percent_of(progress_at(index, count)) == 100,
        count > 1 ==> percent_of(progress_at(index, count)) == (index * 100) as int / (count - 1),
        count > 1 && index == 0 ==> percent_of(progress_at(index, count)) == 0,
        index == count - 1 ==> percent_of(progress_at(index, count)) == 100,
{
    if count > 1 && index == count - 1 {
        assert((index * 100) as int / (index as int) == 100) by (nonlinear_arith)
            requires
                index > 0,
        ;
    }
}

} // verus!
