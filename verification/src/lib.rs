//! A per-identity document registry: each account may submit one current
//! document record, which the registry validates, signs on behalf of a
//! designated authority, stores, and later verifies against the stored
//! signature. A companion event type lets a registry instance notify a peer
//! registry about an upload.

pub mod account;
pub mod keystore;
pub mod policy;
pub mod registry;
pub mod storage;
pub mod frontend;
