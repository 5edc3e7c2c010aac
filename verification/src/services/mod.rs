//! The services behind the routes.

pub mod upload;
