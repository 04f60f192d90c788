//! Control plane for a fleet of compute nodes grouped into clusters.
//!
//! The library keeps cluster, node and operation records, and submits
//! power operations whose record and node status change go together.
pub mod ids;
pub mod models;
pub mod table;
pub mod repository;
pub mod filter;
pub mod memory;
pub mod service;
pub mod laws;
pub mod entities;
pub mod auth;
pub mod transaction;
pub mod config;
