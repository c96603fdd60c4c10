use crate::static_response::StaticResponse;
use vstd::prelude::*;

verus! {

/// The configuration of the reloadable variant's initialization: the
/// (name, backing file path) pairs to register when the application starts.
///
/// Registering from a path requires reading the file, which is the caller's
/// I/O: for each pair, the caller reads the file and its modification time
/// and hands them to `FileResources::register_resource_file`.
pub struct StaticResponseFairing {
    /// The (name, file path) pairs to register, in order.
    pub pairs: Vec<(String, String)>,
}

impl StaticResponse {
    /// Create the fairing configuration of `StaticResponse` for reloadable
    /// resources.
    pub fn fairing(pairs: Vec<(String, String)>) -> (r: StaticResponseFairing)
        ensures
            r.pairs@ == pairs@,
    {
        StaticResponseFairing { pairs }
    }
}

} // verus!
