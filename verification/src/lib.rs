pub mod admin;
pub mod config;
pub mod discovery;
pub mod resource;
pub mod server;
pub mod version;
pub mod watch;
