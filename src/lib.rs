pub mod allowers;
pub mod config;
pub mod handlers;
pub mod middleware;
pub mod runtime;
