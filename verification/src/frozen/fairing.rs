use crate::frozen::static_resources::static_resource_view;
use crate::frozen::static_resources::StaticResourceView;
use crate::frozen::static_resources::StaticResources;
use vstd::prelude::*;

verus! {

/// The registry a sequence of (name, content type, bytes) registrations
/// builds, in order: a duplicate name overwrites the earlier entry.
pub open spec fn spec_registered(entries: Seq<(String, String, Vec<u8>)>) -> Map<
    Seq<char>,
    StaticResourceView,
>
    decreases entries.len(),
{
    if entries.len() == 0 {
        Map::empty()
    } else {
        spec_registered(entries.drop_last()).insert(
            entries.last().0@,
            static_resource_view(entries.last().1@, entries.last().2@),
        )
    }
}

/// The configuration of the frozen variant's initialization: the
/// (name, content type, bytes) entries to register when the application
/// starts.
pub struct StaticResponseFairing {
    /// The (name, content type, payload) entries to register, in order.
    pub entries: Vec<(String, String, Vec<u8>)>,
}

impl StaticResponseFairing {
    /// Create the fairing configuration for frozen resources.
    pub fn new(entries: Vec<(String, String, Vec<u8>)>) -> (r: StaticResponseFairing)
        ensures
            r.entries@ == entries@,
    {
        StaticResponseFairing { entries }
    }

    /// Build the frozen registry: register every configured entry, in order.
    pub fn initialize(&self) -> (r: StaticResources)
        ensures
            r.wf(),
            r@ == spec_registered(self.entries@),
    {
        let mut r = StaticResources::new();
        let mut i: usize = 0;
        while i < self.entries.len()
            invariant
                i <= self.entries@.len(),
                r.wf(),
                r@ == spec_registered(self.entries@.take(i as int)),
            decreases self.entries@.len() - i,
        {
            let entry = &self.entries[i];
            let data = entry.2.clone();
            proof {
                assert(data@ =~= entry.2@);
                assert(self.entries@.take(i as int + 1).drop_last() =~= self.entries@.take(
                    i as int,
                ));
                assert(self.entries@.take(i as int + 1).last() == self.entries@[i as int]);
            }
            r.register_resource_static(entry.0.clone(), entry.1.clone(), data);
            i = i + 1;
        }
        proof {
            assert(self.entries@.take(self.entries@.len() as int) =~= self.entries@);
        }
        r
    }
}

} // verus!
