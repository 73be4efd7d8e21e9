//! Descriptors, requests, memory mappings and byte-level access.

pub mod bytes;
pub mod fd;
pub mod map;
