//! A layered HTTP API for user records: the domain model, the request
//! context, the logger's line format, the "find all users" use case and the
//! request middleware's decisions, each with a verified contract.

pub mod application;
pub mod domain;
pub mod infrastructure;
pub mod presentation;
pub mod registry;
