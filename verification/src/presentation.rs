//! The presentation layer: the handler, and what the middleware and the
//! response logging decide for each request.

pub mod common_middleware;
pub mod router_settings;
pub mod user_handler;
