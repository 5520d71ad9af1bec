use vstd::prelude::*;

verus! {

/// The external error type of `anyhow`, carried through unchanged.
#[verifier::external_type_specification]
#[verifier::external_body]
pub struct ExAnyhowError(anyhow::Error);

/// Metadata cache; it keeps nothing yet.
#[derive(Debug)]
pub struct Cache;

impl Cache {
    /// Open the cache; this always succeeds.
    pub fn open() -> (r: Result<Self, anyhow::Error>)
        ensures
            r is Ok,
    {
        Ok(Cache)
    }
}

} // verus!
