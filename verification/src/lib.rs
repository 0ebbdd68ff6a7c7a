//! Account rules and token logic of a JWT authentication service.
pub mod handlers;
pub mod models;
pub mod util;
