use vstd::prelude::*;

verus! {

/// How playback continues once the current track reaches its end.
#[derive(Debug, Clone, Copy, PartialEq, Eq, Structural)]
pub enum RepeatMode {
    Off,
    One,
    All,
}

/// The mode that follows `mode` in the cycle Off -> One -> All -> Off.
pub open spec fn repeat_successor(mode: RepeatMode) -> RepeatMode {
    match mode {
        RepeatMode::Off => RepeatMode::One,
        RepeatMode::One => RepeatMode::All,
        RepeatMode::All => RepeatMode::Off,
    }
}

impl RepeatMode {
    /// Cycle to the next repeat mode.
    pub fn next(self) -> (r: Self)
        ensures
            r == repeat_successor(self),
    {
        match self {
            RepeatMode::Off => RepeatMode::One,
            RepeatMode::One => RepeatMode::All,
            RepeatMode::All => RepeatMode::Off,
        }
    }
}

/// Cycling three times returns to the starting mode, and the three modes
/// visited on the way are pairwise distinct: the cycle covers every mode.
pub proof fn lemma_repeat_cycle(mode: RepeatMode)
    ensures
        repeat_successor(repeat_successor(repeat_successor(mode))) == mode,
        repeat_successor(mode) != mode,
        repeat_successor(repeat_successor(mode)) != mode,
        repeat_successor(repeat_successor(mode)) != repeat_successor(mode),
{
}

} // verus!
