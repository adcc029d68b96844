//! The application layer: the request context, the logger capability and the
//! use cases.

pub mod context_request;
pub mod logger_trait;
pub mod user_find_all;
