use vstd::prelude::*;
use vstd::string::StringExecFns;

verus! {

/// An entity tag: a weakness indicator and the opaque comparison string,
/// without the surrounding double quotes.
///
/// Tags computed from resource bytes are always weak; tags supplied by a
/// client may carry either flag. Matching on the read path always uses weak
/// equivalence — opaque strings compared character by character, both
/// weakness flags ignored.
pub struct EntityTag {
    /// Whether the tag carries the `W/` weakness indicator.
    pub weak: bool,
    /// The opaque tag content.
    pub tag: String,
}

/// An entity tag as it appears as an `ETag` header value: the opaque string
/// in double quotes, prefixed with `W/` when the tag is weak.
pub open spec fn spec_etag_header_value(weak: bool, tag: Seq<char>) -> Seq<char> {
    (if weak {
        "W/\""@
    } else {
        "\""@
    }) + tag + "\""@
}

impl EntityTag {
    /// This tag's `ETag` header value.
    pub open spec fn spec_header_value(self) -> Seq<char> {
        spec_etag_header_value(self.weak, self.tag@)
    }

    /// Format the tag as a full `ETag` header value.
    pub fn to_header_value(&self) -> (r: String)
        ensures
            r@ == self.spec_header_value(),
    {
        let mut r = if self.weak {
            "W/\"".to_owned()
        } else {
            "\"".to_owned()
        };
        r.append(self.tag.as_str());
        r.append("\"");
        r
    }

    /// Weak comparison: the opaque strings match, whatever either weakness
    /// flag says.
    pub fn weak_eq(&self, other: &EntityTag) -> (r: bool)
        ensures
            r == (self.tag@ == other.tag@),
    {
        self.tag == other.tag
    }
}

impl Clone for EntityTag {
    fn clone(&self) -> (r: Self)
        ensures
            r.weak == self.weak,
            r.tag@ == self.tag@,
    {
        EntityTag { weak: self.weak, tag: self.tag.clone() }
    }
}

/// The entity tags of a client's `If-None-Match` header.
///
/// `etags` is empty when the header was absent or unparsable; `any` is set
/// when the header was `*`, which matches every representation.
pub struct EtagIfNoneMatch {
    /// The requested entity tags, in the order they appear in the header.
    pub etags: Vec<EntityTag>,
    /// Whether the header was `*`.
    pub any: bool,
}

impl EtagIfNoneMatch {
    /// Whether this conditional request matches a resource whose entity tag
    /// has the opaque string `tag`, under weak comparison.
    pub open spec fn spec_weak_match(self, tag: Seq<char>) -> bool {
        self.any || exists|i: int|
            0 <= i < self.etags@.len() && self.etags@[i].tag@ == tag
    }

    /// A conditional request with no `If-None-Match` header. It matches no
    /// tag at all.
    pub fn absent() -> (r: Self)
        ensures
            forall|t: Seq<char>| !r.spec_weak_match(t),
    {
        EtagIfNoneMatch { etags: Vec::new(), any: false }
    }

    /// Weak comparison against `other_etag`: true iff the header was `*` or
    /// some requested tag's opaque string equals `other_etag`'s, regardless
    /// of either side's weakness flag.
    pub fn weak_eq(&self, other_etag: &EntityTag) -> (r: bool)
        ensures
            r == self.spec_weak_match(other_etag.tag@),
    {
        if self.any {
            return true;
        }
        let mut i: usize = 0;
        while i < self.etags.len()
            invariant
                0 <= i <= self.etags@.len(),
                forall|j: int| 0 <= j < i ==> self.etags@[j].tag@ != other_etag.tag@,
            decreases self.etags@.len() - i,
        {
            if self.etags[i].weak_eq(other_etag) {
                return true;
            }
            i = i + 1;
        }
        false
    }
}

/// Weak-equivalence matching ignores every weakness flag: whether a
/// conditional request matches a resource tag depends only on the opaque
/// strings involved. Two requests that agree on `any` and on their tags'
/// opaque strings — whatever their flags — match exactly the same tags.
pub proof fn lemma_weak_match_ignores_flags(a: EtagIfNoneMatch, b: EtagIfNoneMatch, tag: Seq<char>)
    requires
        a.any == b.any,
        a.etags@.len() == b.etags@.len(),
        forall|i: int| 0 <= i < a.etags@.len() ==> a.etags@[i].tag@ == b.etags@[i].tag@,
    ensures
        a.spec_weak_match(tag) == b.spec_weak_match(tag),
{
    if !a.any {
        if a.spec_weak_match(tag) {
            let i = choose|i: int| 0 <= i < a.etags@.len() && a.etags@[i].tag@ == tag;
            assert(b.etags@[i].tag@ == tag);
        }
        if b.spec_weak_match(tag) {
            let i = choose|i: int| 0 <= i < b.etags@.len() && b.etags@[i].tag@ == tag;
            assert(a.etags@[i].tag@ == tag);
        }
    }
}

} // verus!
