use vstd::prelude::*;

verus! {

/// The terminal interface; it holds no state of its own.
#[derive(Debug, Clone, Copy)]
pub struct TuiApp;

impl TuiApp {
    pub fn new() -> (t: Self)
        ensures
            t == TuiApp,
    {
        TuiApp
    }
}

} // verus!
