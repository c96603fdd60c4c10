use crate::entity_tag::EntityTag;
use crate::error::ResourceError;
use crate::functions::compute_data_etag;
use crate::functions::etag_of;
use crate::functions::guess_mime;
use crate::functions::mime_of;
use crate::registry::Registry;
use vstd::pervasive::unreached;
use vstd::prelude::*;

verus! {

/// One reloadable resource: the path of its backing file, and the cached
/// state — content type, bytes, entity tag, and the file's last-known
/// modification time (absent when the filesystem reports none, in which case
/// the resource counts as always stale).
pub struct FileResource {
    /// The path of the backing file.
    pub file_path: String,
    /// The content type inferred from the path.
    pub mime: String,
    /// The cached bytes.
    pub data: Vec<u8>,
    /// The entity tag of the cached bytes.
    pub etag: EntityTag,
    /// The file's modification time when the bytes were read, as nanoseconds
    /// since the epoch, or `None` when it could not be determined.
    pub mtime: Option<u64>,
}

/// The mathematical content of a [`FileResource`].
pub struct FileResourceView {
    pub file_path: Seq<char>,
    pub mime: Seq<char>,
    pub data: Seq<u8>,
    pub etag_weak: bool,
    pub etag_tag: Seq<char>,
    pub mtime: Option<u64>,
}

impl View for FileResource {
    type V = FileResourceView;

    open spec fn view(&self) -> FileResourceView {
        FileResourceView {
            file_path: self.file_path@,
            mime: self.mime@,
            data: self.data@,
            etag_weak: self.etag.weak,
            etag_tag: self.etag.tag@,
            mtime: self.mtime,
        }
    }
}

impl FileResourceView {
    /// Consistency of cached state: the entity tag is the tag computer's
    /// output over exactly the cached bytes (and is weak), and the content
    /// type is the one inferred from the backing path.
    pub open spec fn consistent(self) -> bool {
        &&& self.etag_weak
        &&& self.etag_tag == etag_of(self.data)
        &&& self.mime == mime_of(self.file_path)
    }
}

/// The view a registration with freshly read file bytes produces.
pub open spec fn loaded_resource_view(
    file_path: Seq<char>,
    data: Seq<u8>,
    mtime: Option<u64>,
) -> FileResourceView {
    FileResourceView {
        file_path,
        mime: mime_of(file_path),
        data,
        etag_weak: true,
        etag_tag: etag_of(data),
        mtime,
    }
}

/// The staleness rule: a reload is required iff no modification time was
/// stored when the bytes were cached, or the fresh stat yields none, or the
/// fresh time is strictly newer than the stored one.
pub open spec fn spec_reload_required(stored: Option<u64>, fresh: Option<u64>) -> bool {
    match stored {
        Option::None => true,
        Option::Some(t) => match fresh {
            Option::None => true,
            Option::Some(f) => f > t,
        },
    }
}

/// Reloadable file resources: a registry of named resources cached from
/// files on disk.
///
/// The registry itself performs no I/O. The caller stats and reads the
/// backing files and drives the reload protocol: look the path up with
/// [`FileResources::resource_file_path`], stat it, ask
/// [`FileResources::reload_required`] whether the cached copy is stale, and
/// if so re-read the file and install the fresh bytes with
/// [`FileResources::update_resource`]. Registering a duplicate name
/// overwrites the previous entry (last registration wins).
pub struct FileResources {
    resources: Registry<FileResource>,
}

impl View for FileResources {
    type V = Map<Seq<char>, FileResourceView>;

    closed spec fn view(&self) -> Map<Seq<char>, FileResourceView> {
        self.resources@
    }
}

impl FileResources {
    /// Well-formed: names are unique and every cached resource is
    /// consistent. Established by [`FileResources::new`] and preserved by
    /// every operation.
    pub closed spec fn wf(self) -> bool {
        &&& self.resources.names_unique()
        &&& forall|k: Seq<char>| self@.contains_key(k) ==> (#[trigger] self@[k]).consistent()
    }

    /// Create an empty instance of `FileResources`.
    pub fn new() -> (r: FileResources)
        ensures
            r@ == Map::<Seq<char>, FileResourceView>::empty(),
            r.wf(),
    {
        FileResources { resources: Registry::new() }
    }

    /// Register a resource under `name` from its backing file: `data` are the
    /// bytes just read from `file_path` and `mtime` is the file's
    /// modification time from the same moment (`None` when the filesystem
    /// reports none). The content type is inferred from the path and the
    /// entity tag is computed from the bytes. A previous entry under the same
    /// name is overwritten.
    pub fn register_resource_file(
        &mut self,
        name: String,
        file_path: String,
        data: Vec<u8>,
        mtime: Option<u64>,
    )
        requires
            old(self).wf(),
        ensures
            final(self).wf(),
            final(self)@ == old(self)@.insert(
                name@,
                loaded_resource_view(file_path@, data@, mtime),
            ),
    {
        let mime = guess_mime(file_path.as_str());
        let etag = compute_data_etag(data.as_slice());
        let resource = FileResource { file_path, mime, data, etag, mtime };
        assert(resource@ == loaded_resource_view(resource.file_path@, resource.data@, mtime));
        self.resources.insert(name, resource);
        proof {
            assert forall|k: Seq<char>| self@.contains_key(k) implies (
            #[trigger] self@[k]).consistent() by {
                if k != name@ {
                    assert(old(self)@.contains_key(k) && self@[k] == old(self)@[k]);
                }
            }
        }
    }

    /// Unregister the resource under `name`, returning the path of its
    /// backing file; the file itself is not touched.
    pub fn unregister_resource_file(&mut self, name: &str) -> (r: Option<String>)
        requires
            old(self).wf(),
        ensures
            final(self).wf(),
            final(self)@ == old(self)@.remove(name@),
            match r {
                Some(p) => old(self)@.contains_key(name@) && p@ == old(self)@[name@].file_path,
                None => !old(self)@.contains_key(name@),
            },
    {
        match self.resources.remove(name) {
            Some(resource) => Some(resource.file_path),
            None => None,
        }
    }

    /// The backing file path of `name`: what a caller must stat (and possibly
    /// re-read) before serving `name` with reload enabled.
    pub fn resource_file_path(&self, name: &str) -> (r: Option<&String>)
        requires
            self.wf(),
        ensures
            match r {
                Some(p) => self@.contains_key(name@) && p@ == self@[name@].file_path,
                None => !self@.contains_key(name@),
            },
    {
        match self.resources.get(name) {
            Some(resource) => Some(&resource.file_path),
            None => None,
        }
    }

    /// Decide from a fresh stat of the backing file whether `name`'s cached
    /// copy is stale: true iff no modification time is stored, the fresh one
    /// is unavailable, or the fresh one is strictly newer.
    pub fn reload_required(&self, name: &str, fresh_mtime: &Option<u64>) -> (r: bool)
        requires
            self.wf(),
            self@.contains_key(name@),
        ensures
            r == spec_reload_required(self@[name@].mtime, *fresh_mtime),
    {
        let resource = match self.resources.get(name) {
            Some(resource) => resource,
            None => unreached(),
        };
        match resource.mtime {
            None => true,
            Some(stored) => match fresh_mtime {
                None => true,
                Some(fresh) => *fresh > stored,
            },
        }
    }

    /// Install freshly read bytes for `name` after a reload: replace the
    /// cached bytes, recompute the entity tag from them, and store the fresh
    /// modification time. The path and the content type are kept.
    pub fn update_resource(&mut self, name: &str, data: Vec<u8>, fresh_mtime: Option<u64>)
        requires
            old(self).wf(),
            old(self)@.contains_key(name@),
        ensures
            final(self).wf(),
            final(self)@ == old(self)@.insert(
                name@,
                FileResourceView {
                    file_path: old(self)@[name@].file_path,
                    mime: old(self)@[name@].mime,
                    data: data@,
                    etag_weak: true,
                    etag_tag: etag_of(data@),
                    mtime: fresh_mtime,
                },
            ),
    {
        let (file_path, mime) = match self.resources.get(name) {
            Some(resource) => (resource.file_path.clone(), resource.mime.clone()),
            None => unreached(),
        };
        let etag = compute_data_etag(data.as_slice());
        let resource = FileResource { file_path, mime, data, etag, mtime: fresh_mtime };
        self.resources.insert(name.to_owned(), resource);
    }

    /// Get the cached triple of `name`, without any reload.
    pub fn get_resource(&self, name: &str) -> (r: Result<
        (&String, &Vec<u8>, &EntityTag),
        ResourceError,
    >)
        requires
            self.wf(),
        ensures
            match r {
                Ok((mime, data, etag)) => {
                    &&& self@.contains_key(name@)
                    &&& mime@ == self@[name@].mime
                    &&& data@ == self@[name@].data
                    &&& etag.weak == self@[name@].etag_weak
                    &&& etag.tag@ == self@[name@].etag_tag
                },
                Err(e) => e is NotFound && !self@.contains_key(name@),
            },
    {
        match self.resources.get(name) {
            Some(resource) => Ok((&resource.mime, &resource.data, &resource.etag)),
            None => Err(ResourceError::NotFound),
        }
    }

    /// Every registered name, once each, for driving a reload pass over all
    /// entries.
    pub fn names(&self) -> (r: Vec<String>)
        requires
            self.wf(),
        ensures
            forall|i: int| 0 <= i < r@.len() ==> self@.contains_key(#[trigger] r@[i]@),
            forall|k: Seq<char>|
                self@.contains_key(k) ==> exists|i: int| 0 <= i < r@.len() && r@[i]@ == k,
            forall|i: int, j: int| 0 <= i < j < r@.len() ==> r@[i]@ != r@[j]@,
    {
        self.resources.names()
    }
}

impl Default for FileResources {
    fn default() -> (r: Self)
        ensures
            r@ == Map::<Seq<char>, FileResourceView>::empty(),
            r.wf(),
    {
        FileResources::new()
    }
}

/// A well-formed cache never serves a torn triple: whatever sequence of
/// registrations, unregistrations and reloads produced it, the entity tag
/// served with a resource is the tag computer's output over exactly the bytes
/// served with it, and the content type is the one inferred from the backing
/// path. Together with exclusive access during mutation, a reader thus sees
/// each (type, bytes, tag) triple as a unit.
pub proof fn lemma_served_triple_consistent(resources: FileResources, name: Seq<char>)
    requires
        resources.wf(),
        resources@.contains_key(name),
    ensures
        resources@[name].etag_weak,
        resources@[name].etag_tag == etag_of(resources@[name].data),
        resources@[name].mime == mime_of(resources@[name].file_path),
{
}

/// Staleness detection: when a registered file's modification time advances,
/// the staleness rule demands a reload, and a cache that then installs the
/// fresh bytes serves exactly them, under their own entity tag. A cache that
/// does not reload (the no-reload path) is unchanged, so it still serves the
/// old bytes under the old tag.
pub proof fn lemma_staleness_detection(
    m: Map<Seq<char>, FileResourceView>,
    name: Seq<char>,
    fresh_data: Seq<u8>,
    old_time: u64,
    new_time: u64,
)
    requires
        m.contains_key(name),
        m[name].mtime == Some(old_time),
        new_time > old_time,
    ensures
        spec_reload_required(m[name].mtime, Some(new_time)),
        ({
            let updated = m.insert(
                name,
                FileResourceView {
                    file_path: m[name].file_path,
                    mime: m[name].mime,
                    data: fresh_data,
                    etag_weak: true,
                    etag_tag: etag_of(fresh_data),
                    mtime: Some(new_time),
                },
            );
            updated[name].data == fresh_data && updated[name].etag_tag == etag_of(fresh_data)
        }),
{
}

/// Missing-timestamp fallback: a resource whose stored modification time is
/// unknown is treated as stale on every reload-enabled access, whatever a
/// fresh stat says; and a fresh stat that yields no modification time forces
/// a reload whatever is stored.
pub proof fn lemma_missing_timestamp_fallback(stored: Option<u64>, fresh: Option<u64>)
    ensures
        spec_reload_required(None, fresh),
        spec_reload_required(stored, None),
{
}

} // verus!
