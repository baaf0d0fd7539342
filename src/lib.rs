//! A client for metadata-described runtime modules: storage reads resolved by
//! name, and calls assembled by a builder that cannot be submitted unfinished.
pub mod codec;
pub mod metadata;
pub mod client;
pub mod system;
pub mod balances;
pub mod laws;
