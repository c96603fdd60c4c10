//! The filesystem-backed registry variant: resources that can be reloaded
//! when their backing file changes on disk.

pub mod fairing;
pub mod file_resources;
pub mod manager;

pub use fairing::StaticResponseFairing;
pub use file_resources::FileResource;
pub use file_resources::FileResourceView;
pub use file_resources::FileResources;
pub use manager::StaticContextManager;
