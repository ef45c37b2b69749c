//! A dual-store persistence library: entities of record live in a document
//! store, and the kinds that participate in the graph are mirrored as nodes
//! and relationships in a graph store, with a cache-aside layer in front.
//!
//! The heart of the crate is the write coordinator: a saga that stages a
//! document transaction and a graph transaction, commits the document store
//! first (it is the source of truth), then the graph store, and compensates
//! the already-committed document write when the graph commit fails.

pub mod assoc;
pub mod author_repository;
pub mod authors;
pub mod books;
pub mod cache;
pub mod catalog;
pub mod commands;
pub mod config;
pub mod docstore;
pub mod external;
pub mod genre_service;
pub mod graphstore;
pub mod language_repository;
pub mod language_service;
pub mod laws;
pub mod metadata;
pub mod metadata_repository;
pub mod patch;
pub mod phases;
pub mod publisher_service;
pub mod record;
pub mod responses;
pub mod saga;
pub mod service;
pub mod source_repository;
pub mod source_service;
pub mod user_repository;
pub mod users;
pub mod util;
