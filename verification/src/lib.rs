//! Synchronize a local content-addressed manifest to a remote content store
//! and atomically advance the published root pointer.
//!
//! The core of the crate is the push protocol: probe which objects the remote
//! store already holds, upload the missing ones and verify the returned
//! content identifiers, publish the serialized manifest as a new root object,
//! and advance the registry's root pointer with a compare-and-swap guarded by
//! the previously known root.

pub mod content_id;
pub mod ipfs;
pub mod laws;
pub mod manifest;
pub mod push;
pub mod registry;
pub mod store;

