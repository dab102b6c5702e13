//! Checking software recipes against their upstream sources.
//!
//! A package declares, in its manifest, the version it is built from and the
//! sources that this version is pinned against; its monitoring descriptor
//! says where new releases are tracked. From these and from the answer of the
//! release-tracking service this library works out the latest version and its
//! identity ([`resolve`]), decides whether the recipe is to be updated
//! ([`decide`]) and gives the arguments for the external updater.
//!
//! Reading files, asking the service and running the updater are the
//! caller's business: the library takes and gives plain values. A [`worker`]
//! leads the caller through the handling of one package.

pub mod classify;
pub mod decide;
pub mod manifest;
pub mod monitoring;
pub mod repo_state;
pub mod resolve;
pub mod substitute;
pub mod text;
pub mod worker;
