use crate::entity_tag::EntityTag;
use vstd::prelude::*;

verus! {

/// The opaque entity-tag string derived from byte content. It depends on the
/// exact bytes alone, so computing it twice over equal buffers yields equal
/// strings.
pub uninterp spec fn etag_of(data: Seq<u8>) -> Seq<char>;

/// Relies on `entity_tag::EntityTag::from_data`: the returned tag's opaque
/// string is a fingerprint (an XXH3-128 hash, base64-encoded) of the given
/// bytes and of nothing else.
#[verifier::external_body]
fn data_etag_string(data: &[u8]) -> (r: String)
    ensures
        r@ == etag_of(data@),
{
    ::entity_tag::EntityTag::from_data(data).into_tag().into_owned()
}

/// Compute the entity tag of byte content: always weak, with the opaque
/// string derived from the exact bytes.
pub fn compute_data_etag(data: &[u8]) -> (r: EntityTag)
    ensures
        r.weak,
        r.tag@ == etag_of(data@),
{
    EntityTag { weak: true, tag: data_etag_string(data) }
}

/// Idempotence of the tag computer: the entity tag derived from byte content
/// is a function of the exact bytes, so computing it twice over equal
/// buffers yields identical opaque strings.
pub proof fn lemma_etag_deterministic(b1: Seq<u8>, b2: Seq<u8>)
    requires
        b1 == b2,
    ensures
        etag_of(b1) == etag_of(b2),
{
}

/// The media type registered for a file path's extension, or `None` when the
/// extension is absent or unknown. A pure table lookup on the path alone.
pub uninterp spec fn mime_lookup(path: Seq<char>) -> Option<Seq<char>>;

/// Relies on `mime_guess::from_path` and `MimeGuess::first_raw`: the result
/// is a lookup of the path's extension (case-insensitively) in a static
/// extension-to-media-type table, `None` when nothing is registered for it.
#[verifier::external_body]
fn lookup_mime_raw(path: &str) -> (r: Option<&'static str>)
    ensures
        match r {
            Some(s) => mime_lookup(path@) == Some(s@),
            None => mime_lookup(path@) is None,
        },
{
    mime_guess::from_path(path).first_raw()
}

/// The content type inferred for a file path: the table entry for its
/// extension, or the generic binary type when there is none.
pub open spec fn mime_of(path: Seq<char>) -> Seq<char> {
    match mime_lookup(path) {
        Some(m) => m,
        None => "application/octet-stream"@,
    }
}

/// Infer the content type of a file from its path. Never fails: an absent or
/// unrecognized extension yields `application/octet-stream`.
pub fn guess_mime(path: &str) -> (r: String)
    ensures
        r@ == mime_of(path@),
{
    match lookup_mime_raw(path) {
        Some(s) => s.to_owned(),
        None => "application/octet-stream".to_owned(),
    }
}

} // verus!
