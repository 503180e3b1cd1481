//! Object storage.

pub mod s3;
