//! The four kinds of record and the rules each one keeps by itself.

pub mod config;
pub mod member_role;
pub mod organization;
pub mod role;
