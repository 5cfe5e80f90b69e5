//! Request assembly and response normalization for a set of read-only
//! search-cluster tools.
//!
//! The crate turns loosely typed tool parameters into cluster requests and
//! turns cluster responses into an ordered list of output blocks. Sending a
//! request and decoding a response are left to the caller.

pub mod admin;
pub mod aggregation;
pub mod blocks;
pub mod error;
pub mod json;
pub mod mapping;
pub mod params;
pub mod query;
pub mod request;
pub mod response;
pub mod tabular;
pub mod text;
pub mod time_range;
