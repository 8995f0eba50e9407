//! Declarations of outside types and the trusted wrappers around outside
//! functions. Nothing here is proved: each contract is taken on trust.

pub mod http;
pub mod json;
