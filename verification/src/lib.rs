//! A registry of publishers, code artifacts, API descriptors, bundles and
//! deployed dapps, kept in byte tables and gated by an administrator
//! allow-list and a per-dapp access policy.

pub mod access;
pub mod admin;
pub mod apis;
pub mod codec;
pub mod counter;
pub mod dapp;
pub mod error;
pub mod fields;
pub mod laws;
pub mod model;
pub mod principal;
pub mod records;
pub mod stable;
pub mod table;
pub mod text;
pub mod types;
