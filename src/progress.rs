//! The normalized progress value: a transfer stage and a whole percentage.
use vstd::prelude::*;

verus! {

/// The stage of a remote transfer that a progress value describes.
#[derive(Clone, Copy, Debug, PartialEq, Eq, Structural)]
pub enum RemoteProgressState {
    /// Building a pack: adding objects.
    PackingAddingObject,
    /// Building a pack: delta compression.
    PackingDeltafiction,
    /// Sending objects to the remote.
    Pushing,
    /// Receiving objects from the remote.
    Transfer,
    /// The transfer has finished.
    Done,
}

/// A progress report: the stage, and how far along it is in whole percent.
#[derive(Clone, Copy, Debug, PartialEq, Eq, Structural)]
pub struct RemoteProgress {
    /// The stage reported on.
    pub state: RemoteProgressState,
    /// How far along the stage is, from 0 to 100.
    pub progress: u8,
}

/// The larger of two counters.
pub open spec fn max_nat(a: nat, b: nat) -> nat {
    if a >= b { a } else { b }
}

/// The whole percentage that `current` is of `max(current, total)`, rounded
/// down. A `current` above `total` counts as complete. With both counters at
/// zero there is nothing to measure, and the percentage is 0.
pub open spec fn percent_of(current: nat, total: nat) -> nat {
    let whole = max_nat(current, total);
    if whole == 0 {
        0
    } else {
        current * 100 / whole
    }
}

/// A part never exceeds its whole: the percentage stays within 0..=100.
pub proof fn lemma_percent_at_most_100(current: nat, total: nat)
    ensures
        percent_of(current, total) <= 100,
{
    let whole = max_nat(current, total);
    if whole > 0 {
        assert(current * 100 <= whole * 100) by (nonlinear_arith)
            requires
                current <= whole,
        ;
        assert(current * 100 / whole <= 100) by (nonlinear_arith)
            requires
                current * 100 <= whole * 100,
                whole > 0,
        ;
    }
}

impl RemoteProgress {
    /// The progress value built from a stage and a pair of counters.
    pub open spec fn spec_new(state: RemoteProgressState, current: nat, total: nat) -> RemoteProgress {
        RemoteProgress { state, progress: percent_of(current, total) as u8 }
    }

    /// Builds the progress of `state` from the counters `current` of `total`.
    ///
    /// The percentage is `current * 100 / max(current, total)`, rounded
    /// down, so a `current` past `total` reads as 100; both counters at zero
    /// read as 0.
    pub fn new(state: RemoteProgressState, current: usize, total: usize) -> (r: Self)
        ensures
            r.state == state,
            r.progress as nat == percent_of(current as nat, total as nat),
            r == Self::spec_new(state, current as nat, total as nat),
            r.progress <= 100,
            0 < total && current <= total ==> r.progress == current * 100 / (total as int),
    {
        let whole: usize = if current >= total { current } else { total };
        if whole == 0 {
            return RemoteProgress { state, progress: 0 };
        }
        proof {
            lemma_percent_at_most_100(current as nat, total as nat);
        }
        let scaled: u128 = (current as u128) * 100;
        let percent: u128 = scaled / (whole as u128);
        RemoteProgress { state, progress: percent as u8 }
    }
}

} // verus!
