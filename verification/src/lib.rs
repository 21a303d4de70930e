//! Core rules of a small to-do record service.
//!
//! - [`identifier`]: identifiers of entities and references to stored records
//! - [`timestamp`]: instants and their stored text
//! - [`todo`]: the entity, its stored record and the codec between the two
//! - [`request`]: create, update and search requests, validation and merge
//! - [`store`]: what is asked of the store and what it answers
//! - [`service`]: the operations of the entity service, step by step
//! - [`schema`]: provisioning of table, analyzer and search index
//! - [`health`]: health reporting
//! - [`error`]: what can go wrong
//!
//! The library does no input or output. Whoever uses it talks to the store
//! and hands the library what came back.

pub mod error;
pub mod health;
pub mod identifier;
pub mod request;
pub mod schema;
pub mod service;
pub mod store;
pub mod timestamp;
pub mod todo;
