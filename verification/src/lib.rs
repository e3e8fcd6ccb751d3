//! Shared backing libraries for an e-commerce microservices platform.
//!
//! The heart of the crate is a generic database-repository framework: a SQL
//! statement builder (`statement`), a linearly-owned transactional connection
//! model (`connection`), a transaction runner (`pool`), an access-control
//! layer (`acl`) and a generic CRUD repository (`repo`) that ties them
//! together, with a sequence-counter helper (`sequence`) beside them.
//! Around it stand the platform's small shared vocabularies: domain enums
//! (`types`, `resources`, `routes`), the mail templates (`emails`) and
//! simple caches (`cache`).

pub mod acl;
pub mod cache;
pub mod connection;
pub mod emails;
pub mod error;
pub mod pool;
pub mod repo;
pub mod resources;
pub mod roles;
pub mod routes;
pub mod sequence;
pub mod statement;
pub mod strutil;
pub mod types;
