//! A personal reading-catalog engine: books with reading statuses and
//! free-form notes, kept behind a storage-contract interface.
//!
//! - [`model`] holds the entities, the input records that mutations
//!   validate, the error kinds, and the status string codec;
//! - [`repository`] states the storage contract over a mathematical model
//!   of the store and provides the in-memory backend proved against it;
//! - [`books_api`] holds the pure parts of the external metadata lookup:
//!   year parsing and search-result shaping;
//! - [`service`] enforces every business rule before a repository write;
//! - [`laws`] proves the catalog-wide properties the contracts promise.

pub mod books_api;
pub mod laws;
pub mod model;
pub mod repository;
pub mod service;
