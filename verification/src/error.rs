use vstd::prelude::*;

verus! {

/// The error of the registry read path.
///
/// A missing name is a caller bug — the set of valid names is fixed when the
/// registry is populated — so it is the only error the registries themselves
/// raise. Failures of the filesystem (stat or read) are surfaced directly by
/// the code that performs that I/O and never reach these registries.
#[derive(Debug, PartialEq, Eq, Structural, Clone, Copy)]
pub enum ResourceError {
    /// The requested name was never registered.
    NotFound,
}

impl ResourceError {
    /// A human-readable description, in place of `Display`.
    pub fn message(&self) -> (r: &'static str)
        ensures
            r@ == "the requested resource name is not registered"@,
    {
        "the requested resource name is not registered"
    }
}

} // verus!
