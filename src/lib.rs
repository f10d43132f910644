//! A poll-driven engine that keeps a height-indexed store caught up with the
//! head of an append-only source, together with the row type that stores a
//! beacon-chain slot.
pub mod error;
pub mod laws;
pub mod slot;
pub mod syncer;
