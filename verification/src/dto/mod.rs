//! The values that go in and out of the service.

pub mod object;
pub mod upload;
