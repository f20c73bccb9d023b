use vstd::prelude::*;

verus! {

/// A value that the protocol may or may not accept.
pub trait Validity {
    /// What it means for the value to be valid.
    spec fn is_valid(&self) -> bool;

    /// Whether the value is valid.
    fn valid(&self) -> (ok: bool)
        ensures
            ok == self.is_valid(),
    ;
}

} // verus!
