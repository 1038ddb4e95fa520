//! FileFerry core: the verified decision logic of a small HTTP
//! file-transfer proxy between a local filesystem and an S3 bucket.
#![allow(unused_imports)]

pub mod text;
pub mod model;
pub mod error;
pub mod validate;
pub mod calendar;
pub mod backend;
pub mod config;
pub mod net;
pub mod boot_warnings;
pub mod doctor;
pub mod auth;
pub mod extract;
pub mod security_headers;
pub mod response_headers;
pub mod trace_headers;
pub mod router;
pub mod cli;
pub mod diagnose;
pub mod audit;
