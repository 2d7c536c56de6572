//! Core of a node agent for firewall and VPN appliances.

pub mod auth;
pub mod config;
pub mod errors;
pub mod foreign;
pub mod routes;
pub mod text;
pub mod utils;
pub mod workers;
