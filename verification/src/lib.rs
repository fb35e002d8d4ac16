//! Configuration and startup rules of the `hickory-dns` server.
#![allow(unused_imports)]

pub mod addr;
pub mod config;
pub mod failure;
pub mod laws;
pub mod load;
pub mod nsid;
pub mod path;
pub mod privilege;
pub mod report;
pub mod setup;
pub mod socket;
pub mod startup;
pub mod text;
pub mod tls;
pub mod zone;
