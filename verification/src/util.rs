pub mod config;
pub mod id;
pub mod service;
