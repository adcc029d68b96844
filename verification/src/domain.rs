//! The domain layer: timestamps, the user entity, the error taxonomy and the
//! repository capability.

pub mod error_common;
pub mod timestamp;
pub mod user_model;
pub mod user_repository;
