use crate::entity_tag::EntityTag;
use vstd::prelude::*;

verus! {

/// The payload of a full (not-modified-free) response: the content type, the
/// bytes, and the resource's entity tag formatted as an `ETag` header value.
pub struct StaticResponseInner {
    /// The value of the `Content-Type` header.
    pub mime: String,
    /// The response body.
    pub data: Vec<u8>,
    /// The value of the `ETag` header.
    pub etag: String,
}

/// What a conditional GET of a static resource answers: either "not
/// modified" (no body, no headers) or the full payload with its headers.
pub struct StaticResponse {
    /// `None` for "not modified"; otherwise the full payload.
    pub inner: Option<StaticResponseInner>,
}

impl StaticResponse {
    /// Build a full response from a resource's content type, bytes and
    /// entity tag.
    pub fn build(mime: &String, data: &Vec<u8>, etag: &EntityTag) -> (r: StaticResponse)
        ensures
            r.inner matches Some(i) && {
                &&& i.mime@ == mime@
                &&& i.data@ == data@
                &&& i.etag@ == etag.spec_header_value()
            },
    {
        StaticResponse {
            inner: Some(
                StaticResponseInner {
                    mime: mime.clone(),
                    data: data.clone(),
                    etag: etag.to_header_value(),
                },
            ),
        }
    }

    /// The "not modified" response.
    pub fn not_modified() -> (r: StaticResponse)
        ensures
            r.inner is None,
    {
        StaticResponse { inner: None }
    }

    /// Whether this response is the "not modified" signal.
    pub fn is_not_modified(&self) -> (r: bool)
        ensures
            r == (self.inner is None),
    {
        self.inner.is_none()
    }
}

} // verus!
