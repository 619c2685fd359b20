//! The operations of the service, one module each.

pub mod entries;
