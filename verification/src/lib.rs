pub mod auth;
pub mod database;
pub mod error;
pub mod guarantees;
pub mod handlers;
pub mod models;
