//! A minimal flat-file record store: each entity is persisted as one file
//! named by its identifier, holding the payload text and nothing else.
//!
//! The store's logic lives here, verified: deriving an entity's hash code
//! from its identifier, mapping an identifier to a storage path, and
//! rebuilding a payload the way a line-based read returns it. The filesystem
//! calls themselves stay with the caller.

pub mod dao;
pub mod payload;
