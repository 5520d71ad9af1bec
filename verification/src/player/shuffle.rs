use vstd::prelude::*;

verus! {

/// How the upcoming queue is ordered and refilled.
#[derive(Debug, Clone, Copy, PartialEq, Eq, Structural)]
pub enum ShuffleMode {
    Off,
    Random,
    Favourites,
    Discovery,
}

/// The mode that follows `mode` in the cycle
/// Off -> Random -> Favourites -> Discovery -> Off.
pub open spec fn shuffle_successor(mode: ShuffleMode) -> ShuffleMode {
    match mode {
        ShuffleMode::Off => ShuffleMode::Random,
        ShuffleMode::Random => ShuffleMode::Favourites,
        ShuffleMode::Favourites => ShuffleMode::Discovery,
        ShuffleMode::Discovery => ShuffleMode::Off,
    }
}

/// Applying `shuffle_successor` `n` times.
pub open spec fn shuffle_successor_n(mode: ShuffleMode, n: nat) -> ShuffleMode
    decreases n,
{
    if n == 0 {
        mode
    } else {
        shuffle_successor(shuffle_successor_n(mode, (n - 1) as nat))
    }
}

impl ShuffleMode {
    /// Cycle to the next shuffle mode.
    pub fn next(self) -> (r: Self)
        ensures
            r == shuffle_successor(self),
    {
        match self {
            ShuffleMode::Off => ShuffleMode::Random,
            ShuffleMode::Random => ShuffleMode::Favourites,
            ShuffleMode::Favourites => ShuffleMode::Discovery,
            ShuffleMode::Discovery => ShuffleMode::Off,
        }
    }
}

/// Cycling four times returns to the starting mode, and the four modes
/// visited on the way are pairwise distinct: the cycle covers every mode.
pub proof fn lemma_shuffle_cycle(mode: ShuffleMode)
    ensures
        shuffle_successor_n(mode, 4) == mode,
        forall|i: nat, j: nat|
            i < j < 4 ==> shuffle_successor_n(mode, i) != shuffle_successor_n(mode, j),
{
    reveal_with_fuel(shuffle_successor_n, 5);
    assert forall|i: nat, j: nat| i < j < 4 implies shuffle_successor_n(mode, i)
        != shuffle_successor_n(mode, j) by {
        reveal_with_fuel(shuffle_successor_n, 5);
    }
}

} // verus!
