pub mod auth;
pub mod cli;
pub mod config;
pub mod cookies;
pub mod decimal;
pub mod flow;
pub mod discover;
pub mod id;
pub mod infra;
pub mod middleware;
pub mod model;
pub mod pool;
pub mod proto;
pub mod registry;
pub mod status;
pub mod text;
