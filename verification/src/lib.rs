//! Dusty Shelf: the rules of a small book-keeping service.
//!
//! The crate holds what the service decides: who may ask, what the shelf
//! keeps, and how each outcome is answered. Serving requests and talking to a
//! database are left to the program built around it.

pub mod auth;
pub mod catchers;
pub mod config;
pub mod dtos;
pub mod dusty_b;
pub mod launch_failures;
pub mod models;
pub mod router;
pub mod routes;
pub mod service;
pub mod status;
pub mod store;
pub mod text;
pub mod token;
