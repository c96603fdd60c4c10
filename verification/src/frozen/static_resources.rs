use crate::entity_tag::EntityTag;
use crate::functions::compute_data_etag;
use crate::functions::etag_of;
use crate::registry::Registry;
use vstd::prelude::*;

verus! {

/// One frozen resource: a content type, a byte payload, and the payload's
/// entity tag, set at registration and never mutated.
pub struct StaticResource {
    /// The content type the resource is served with.
    pub mime: String,
    /// The payload.
    pub data: Vec<u8>,
    /// The entity tag of the payload.
    pub etag: EntityTag,
}

/// The mathematical content of a [`StaticResource`].
pub struct StaticResourceView {
    pub mime: Seq<char>,
    pub data: Seq<u8>,
    pub etag_weak: bool,
    pub etag_tag: Seq<char>,
}

impl View for StaticResource {
    type V = StaticResourceView;

    open spec fn view(&self) -> StaticResourceView {
        StaticResourceView {
            mime: self.mime@,
            data: self.data@,
            etag_weak: self.etag.weak,
            etag_tag: self.etag.tag@,
        }
    }
}

impl StaticResourceView {
    /// Consistency: the entity tag is the tag computer's output over exactly
    /// the payload bytes, and is weak.
    pub open spec fn consistent(self) -> bool {
        &&& self.etag_weak
        &&& self.etag_tag == etag_of(self.data)
    }
}

/// The view a registration produces.
pub open spec fn static_resource_view(mime: Seq<char>, data: Seq<u8>) -> StaticResourceView {
    StaticResourceView { mime, data, etag_weak: true, etag_tag: etag_of(data) }
}

/// Static resources: a registry populated once from in-memory bytes. No
/// filesystem interaction ever occurs after registration, so lookups never
/// mutate and readers need no exclusive access. Registering a duplicate name
/// overwrites the previous entry (last registration wins).
pub struct StaticResources {
    resources: Registry<StaticResource>,
}

impl View for StaticResources {
    type V = Map<Seq<char>, StaticResourceView>;

    closed spec fn view(&self) -> Map<Seq<char>, StaticResourceView> {
        self.resources@
    }
}

impl StaticResources {
    /// Well-formed: names are unique and every resource is consistent.
    pub closed spec fn wf(self) -> bool {
        &&& self.resources.names_unique()
        &&& forall|k: Seq<char>| self@.contains_key(k) ==> (#[trigger] self@[k]).consistent()
    }

    /// Create an empty instance of `StaticResources`.
    pub fn new() -> (r: StaticResources)
        ensures
            r@ == Map::<Seq<char>, StaticResourceView>::empty(),
            r.wf(),
    {
        StaticResources { resources: Registry::new() }
    }

    /// Register a static resource: the entity tag is computed once, here,
    /// from the given bytes. A previous entry under the same name is
    /// overwritten.
    pub fn register_resource_static(&mut self, name: String, mime: String, data: Vec<u8>)
        requires
            old(self).wf(),
        ensures
            final(self).wf(),
            final(self)@ == old(self)@.insert(name@, static_resource_view(mime@, data@)),
    {
        let etag = compute_data_etag(data.as_slice());
        let resource = StaticResource { mime, data, etag };
        self.resources.insert(name, resource);
        proof {
            assert forall|k: Seq<char>| self@.contains_key(k) implies (
            #[trigger] self@[k]).consistent() by {
                if k != name@ {
                    assert(old(self)@.contains_key(k) && self@[k] == old(self)@[k]);
                }
            }
        }
    }

    /// Get the specific resource: a pure lookup that never mutates and fails
    /// only by absence.
    pub fn get_resource(&self, name: &str) -> (r: Option<(&String, &Vec<u8>, &EntityTag)>)
        requires
            self.wf(),
        ensures
            match r {
                Some((mime, data, etag)) => {
                    &&& self@.contains_key(name@)
                    &&& mime@ == self@[name@].mime
                    &&& data@ == self@[name@].data
                    &&& etag.weak == self@[name@].etag_weak
                    &&& etag.tag@ == self@[name@].etag_tag
                },
                None => !self@.contains_key(name@),
            },
    {
        match self.resources.get(name) {
            Some(resource) => Some((&resource.mime, &resource.data, &resource.etag)),
            None => None,
        }
    }
}

impl Default for StaticResources {
    fn default() -> (r: Self)
        ensures
            r@ == Map::<Seq<char>, StaticResourceView>::empty(),
            r.wf(),
    {
        StaticResources::new()
    }
}

} // verus!
