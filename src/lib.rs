//! Attribute-based authorization: a fixed policy over identity attributes,
//! with the decoding of one JSON request per line.

pub mod attributes;
pub mod laws;
pub mod policy;
pub mod request;
pub mod text;
