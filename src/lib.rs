//! Storage core of a registry of versioned packages and plugins: version
//! precedence, artifact checksums, per-version build lists, the index of
//! known entities, the on-disk layout and search over the index.

pub mod api;
pub mod digest;
pub mod index;
pub mod layout;
pub mod model;
pub mod search;
pub mod store;
pub mod version;
