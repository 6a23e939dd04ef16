pub mod keyboard;
pub mod config;
pub mod engine;
pub mod state;
pub mod handler;
pub mod laws;
