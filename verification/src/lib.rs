//! A container image registry: the push and pull protocol of the OCI distribution
//! rules, over a content-addressed store.
//!
//! The crate holds the registry's logic as plain functions on plain values: digests and
//! their wire form, the layout of the store, the store itself, the authentication gate,
//! and one handler per endpoint. Transport and disk access are left to the caller.
//!
//! - [`encoding`]: hexadecimal and decimal text.
//! - [`digest`]: SHA-256 digests and their wire form.
//! - [`storage`]: upload ids, image locations, manifest references, and where each
//!   object lies below the root of a store on disk.
//! - [`table`] and [`store`]: a store in memory, and what holds of every store.
//! - [`auth`]: credentials of the Basic scheme, and providers that accept or refuse them.
//! - [`response`], [`error`], [`manifest`], [`protocol`]: the answers of the endpoints.
//! - [`registry`] and [`request`]: the handlers, and the entry point that takes any
//!   routed request.

pub mod auth;
pub mod digest;
pub mod encoding;
pub mod error;
pub mod manifest;
pub mod protocol;
pub mod registry;
pub mod request;
pub mod response;
pub mod storage;
pub mod store;
pub mod table;

pub use digest::{Digest, ImageDigest, ImageDigestParseError};
pub use error::RegistryError;
pub use protocol::{mk_manifest_location, mk_upload_location};
pub use registry::ContainerRegistry;
