//! The memory-backed registry variant: resources populated once from
//! in-memory byte slices and never reloaded.

pub mod fairing;
pub mod manager;
pub mod static_resources;

pub use fairing::StaticResponseFairing;
pub use manager::StaticContextManager;
pub use static_resources::StaticResource;
pub use static_resources::StaticResourceView;
pub use static_resources::StaticResources;
