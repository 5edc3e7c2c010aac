//! Presigned and signed URLs for uploading files to, and reading them from, an
//! S3-compatible bucket that may be fronted by a CloudFront CDN.
//!
//! The library decides what is signed, for how long, under which key and with
//! which content type; the network, the clock and the file system stay with the
//! caller, which hands their results to the steps here.

pub mod text;
pub mod paths;
pub mod media;
pub mod links;
pub mod signing;
pub mod storage;

pub mod error;
pub mod routes;
pub mod config;
pub mod dto;
pub mod services;
pub mod controllers;

pub use error::{ServiceError, ServiceResponse, ServiceResult};
pub use routes::{DisabledRoutes, DisabledRoutesBuilder, Route};
pub use services::upload::UploadService;
