use vstd::prelude::*;

verus! {

/// The key of the distinguished unidentified caller.
pub const ANONYMOUS_KEY: u64 = 0;

/// An opaque comparable token standing for a caller.
///
/// One distinguished value stands for the anonymous (unidentified) caller,
/// which may read campaigns and create them but may never pledge.
#[derive(Clone, Copy, PartialEq, Eq, Structural, Debug)]
pub struct Identity {
    pub key: u64,
}

impl Identity {
    pub open spec fn is_anonymous_spec(&self) -> bool {
        self.key == ANONYMOUS_KEY
    }

    /// The unidentified caller.
    pub fn anonymous() -> (r: Identity)
        ensures
            r.is_anonymous_spec(),
    {
        Identity { key: ANONYMOUS_KEY }
    }

    #[verifier::when_used_as_spec(is_anonymous_spec)]
    pub fn is_anonymous(&self) -> (r: bool)
        ensures
            r == self.is_anonymous_spec(),
    {
        self.key == ANONYMOUS_KEY
    }
}

} // verus!
