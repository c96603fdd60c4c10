//! An in-memory cache of named static resources (byte payloads) served with
//! weak-ETag conditional-GET negotiation.
//!
//! A registry maps symbolic names to byte payloads, each annotated with a
//! content type and a content-derived entity tag. Two registry variants share
//! one contract:
//!
//! - [`reloadable::FileResources`] is backed by files on disk: before a read,
//!   the caller re-stats the backing file and, when the registry decides the
//!   cached copy is stale, re-reads it and hands the fresh bytes back to the
//!   registry, which recomputes the entity tag.
//! - [`frozen::StaticResources`] is populated once from in-memory byte
//!   slices and never reloaded.
//!
//! Each variant has a `StaticContextManager` whose `build` operation answers a
//! conditional request: given the client's `If-None-Match` entity tags and a
//! resource name, it produces either a "not modified" signal or the full
//! payload with its content type and entity tag.

pub mod entity_tag;
pub mod error;
pub mod frozen;
pub mod functions;
pub mod registry;
pub mod reloadable;
pub mod static_response;

pub use entity_tag::EntityTag;
pub use entity_tag::EtagIfNoneMatch;
pub use error::ResourceError;
pub use frozen::static_resources::StaticResources;
pub use functions::compute_data_etag;
pub use functions::guess_mime;
pub use reloadable::file_resources::FileResources;
pub use static_response::StaticResponse;
pub use static_response::StaticResponseInner;
