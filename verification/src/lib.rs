//! The decisions of a client for the delta variant of the aggregated discovery service.
pub mod client;
pub mod config;
pub mod demand;
pub mod handler;
pub mod message;
pub mod node;
pub mod outside;
pub mod resource;
pub mod retry;
pub mod state;
pub mod table;
pub mod text;
