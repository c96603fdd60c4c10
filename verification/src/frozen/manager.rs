use crate::entity_tag::spec_etag_header_value;
use crate::entity_tag::EtagIfNoneMatch;
use crate::error::ResourceError;
use crate::frozen::static_resources::StaticResources;
use crate::static_response::StaticResponse;
use vstd::pervasive::unreached;
use vstd::prelude::*;

verus! {

/// Monitors the state of frozen static resources and answers conditional
/// requests.
///
/// The resources are never mutated after construction, so concurrent readers
/// need no locking.
pub struct StaticContextManager {
    /// The resources the manager owns.
    pub resources: StaticResources,
}

impl StaticContextManager {
    /// Create a manager owning `resources`.
    pub fn new(resources: StaticResources) -> (r: StaticContextManager)
        ensures
            r.resources == resources,
    {
        StaticContextManager { resources }
    }

    /// Attempt to build a `StaticResponse` for `name`.
    ///
    /// Returns "not modified" iff some entity tag of the conditional request
    /// weakly matches the resource's tag (opaque strings equal, weakness
    /// flags ignored); otherwise the full payload with its content type and
    /// entity tag. Fails — with `NotFound`, never a default payload — iff
    /// `name` is not registered.
    pub fn try_build(&self, etag_if_none_match: &EtagIfNoneMatch, name: &str) -> (r: Result<
        StaticResponse,
        ResourceError,
    >)
        requires
            self.resources.wf(),
        ensures
            match r {
                Ok(resp) => self.resources@.contains_key(name@) && ({
                    let res = self.resources@[name@];
                    if etag_if_none_match.spec_weak_match(res.etag_tag) {
                        resp.inner is None
                    } else {
                        resp.inner matches Some(i) && {
                            &&& i.mime@ == res.mime
                            &&& i.data@ == res.data
                            &&& i.etag@ == spec_etag_header_value(res.etag_weak, res.etag_tag)
                        }
                    }
                }),
                Err(e) => e is NotFound && !self.resources@.contains_key(name@),
            },
    {
        match self.resources.get_resource(name) {
            Some((mime, data, etag)) => {
                if etag_if_none_match.weak_eq(etag) {
                    Ok(StaticResponse::not_modified())
                } else {
                    Ok(StaticResponse::build(mime, data, etag))
                }
            },
            None => Err(ResourceError::NotFound),
        }
    }

    /// Build a `StaticResponse` for a registered `name`; the not-modified
    /// decision is as for [`StaticContextManager::try_build`].
    pub fn build(&self, etag_if_none_match: &EtagIfNoneMatch, name: &str) -> (r: StaticResponse)
        requires
            self.resources.wf(),
            self.resources@.contains_key(name@),
        ensures
            ({
                let res = self.resources@[name@];
                if etag_if_none_match.spec_weak_match(res.etag_tag) {
                    r.inner is None
                } else {
                    r.inner matches Some(i) && {
                        &&& i.mime@ == res.mime
                        &&& i.data@ == res.data
                        &&& i.etag@ == spec_etag_header_value(res.etag_weak, res.etag_tag)
                    }
                }
            }),
    {
        match self.try_build(etag_if_none_match, name) {
            Ok(resp) => resp,
            Err(_) => unreached(),
        }
    }
}

} // verus!
