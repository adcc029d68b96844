//! The infrastructure layer: the logger that formats lines and the user
//! repository.

pub mod logger_log;
pub mod user_repository;
